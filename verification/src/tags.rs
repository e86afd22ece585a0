use vstd::prelude::*;

verus! {

/// An ordered key/value metadata pair attached to a transaction.
///
/// Tags are opaque byte strings; duplicate names are permitted, and the order
/// of tags is preserved and is part of the canonical envelope encoding.
pub struct Tag {
    pub name: Vec<u8>,
    pub value: Vec<u8>,
}

impl Tag {
    pub fn new(name: Vec<u8>, value: Vec<u8>) -> (t: Tag)
        ensures
            t.name@ == name@,
            t.value@ == value@,
    {
        Tag { name, value }
    }
}

} // verus!
