use vstd::prelude::*;

verus! {

/// One queued work item as the metadata store records it: a stable string
/// identity key, the creation instant in nanoseconds since the Unix epoch,
/// and an opaque payload value. The payload is carried but not yet projected
/// into any active column.
pub struct QueueItem {
    key: String,
    created_ns: i64,
    value: String,
}

impl QueueItem {
    pub closed spec fn key_spec(&self) -> Seq<char> {
        self.key@
    }

    pub closed spec fn created_ns_spec(&self) -> i64 {
        self.created_ns
    }

    pub closed spec fn value_spec(&self) -> Seq<char> {
        self.value@
    }

    pub fn new(key: String, created_ns: i64, value: String) -> (r: QueueItem)
        ensures
            r.key_spec() == key@,
            r.created_ns_spec() == created_ns,
            r.value_spec() == value@,
    {
        QueueItem { key, created_ns, value }
    }

    pub fn get_key(&self) -> (r: &String)
        ensures
            r@ == self.key_spec(),
    {
        &self.key
    }

    pub fn get_created_ns(&self) -> (r: i64)
        ensures
            r == self.created_ns_spec(),
    {
        self.created_ns
    }

    pub fn get_value(&self) -> (r: &String)
        ensures
            r@ == self.value_spec(),
    {
        &self.value
    }
}

/// A row paired with the numeric identifier the store assigned to it. The
/// wrapper, not the bare entity, is what the row snapshot holds and what the
/// column extractors read.
pub struct IdRow<T> {
    id: u64,
    row: T,
}

impl<T> IdRow<T> {
    pub closed spec fn id_spec(&self) -> u64 {
        self.id
    }

    pub closed spec fn row_spec(&self) -> T {
        self.row
    }

    pub fn new(id: u64, row: T) -> (r: IdRow<T>)
        ensures
            r.id_spec() == id,
            r.row_spec() == row,
    {
        IdRow { id, row }
    }

    pub fn get_id(&self) -> (r: u64)
        ensures
            r == self.id_spec(),
    {
        self.id
    }

    pub fn get_row(&self) -> (r: &T)
        ensures
            *r == self.row_spec(),
    {
        &self.row
    }
}

} // verus!
