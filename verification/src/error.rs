use vstd::prelude::*;

verus! {

/// The single failure kind this adapter knows: whatever the metadata store
/// reported while the rows were being fetched. The scan performs no recovery
/// or retry of its own; the message travels to the caller unchanged.
pub struct CubeError {
    message: String,
}

impl CubeError {
    pub closed spec fn message_spec(&self) -> Seq<char> {
        self.message@
    }

    pub fn new(message: String) -> (r: CubeError)
        ensures
            r.message_spec() == message@,
    {
        CubeError { message }
    }

    pub fn get_message(&self) -> (r: &String)
        ensures
            r@ == self.message_spec(),
    {
        &self.message
    }
}

} // verus!
