//! The owned buffer that a point read returns.
use vstd::prelude::*;

verus! {

/// The bytes of a value that was read from the database.
#[derive(Clone, Debug, PartialEq, Eq)]
pub struct Bytes {
    bytes: Vec<u8>,
}

impl View for Bytes {
    type V = Seq<u8>;

    closed spec fn view(&self) -> Seq<u8> {
        self.bytes@
    }
}

impl Bytes {
    /// The buffer for what a read returned: none where the engine found no
    /// entry.
    pub fn from_raw(found: Option<Vec<u8>>) -> (bytes: Option<Bytes>)
        ensures
            found is None <==> bytes is None,
            found matches Some(value) ==> bytes->0@ == value@,
    {
        match found {
            Some(value) => Some(Bytes { bytes: value }),
            None => None,
        }
    }

    /// The bytes of the value.
    pub fn as_slice(&self) -> (bytes: &[u8])
        ensures
            bytes@ == self@,
    {
        self.bytes.as_slice()
    }

    /// The number of bytes of the value.
    pub fn len(&self) -> (len: usize)
        ensures
            len == self@.len(),
    {
        self.bytes.len()
    }

    /// The bytes of the value, as a vector of their own.
    pub fn into_vec(self) -> (bytes: Vec<u8>)
        ensures
            bytes@ == self@,
    {
        self.bytes
    }
}

} // verus!
