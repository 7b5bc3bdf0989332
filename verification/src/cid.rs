use vstd::prelude::*;

verus! {

/// A content identifier: an opaque, content-derived reference to bytes
/// stored elsewhere. This crate carries it in its binary form and never
/// looks inside it; computing or validating one is a collaborator's job.
#[derive(Debug, PartialEq, Eq)]
pub struct Cid {
    bytes: Vec<u8>,
}

impl View for Cid {
    type V = Seq<u8>;

    closed spec fn view(&self) -> Seq<u8> {
        self.bytes@
    }
}

impl Cid {
    /// Builds an identifier from its binary form.
    pub fn from_bytes(bytes: Vec<u8>) -> (r: Cid)
        ensures
            r@ == bytes@,
    {
        Cid { bytes }
    }

    /// The default identifier: the empty binary form, standing for "no
    /// content referenced yet".
    pub fn empty() -> (r: Cid)
        ensures
            r@ == Seq::<u8>::empty(),
    {
        Cid { bytes: Vec::new() }
    }

    /// The binary form of the identifier.
    pub fn bytes(&self) -> (r: &Vec<u8>)
        ensures
            r@ == self@,
    {
        &self.bytes
    }
}

impl Clone for Cid {
    /// A copy with the same binary form.
    fn clone(&self) -> (r: Self)
        ensures
            r@ == self@,
    {
        Cid { bytes: vstd::slice::slice_to_vec(self.bytes.as_slice()) }
    }
}

} // verus!
