use vstd::prelude::*;

verus! {

/// A byte sequence whose length never exceeds the capacity `N`.
#[derive(Debug, PartialEq, Eq)]
pub struct BoundedBytes<const N: usize> {
    bytes: Vec<u8>,
}

impl<const N: usize> View for BoundedBytes<N> {
    type V = Seq<u8>;

    closed spec fn view(&self) -> Seq<u8> {
        self.bytes@
    }
}

impl<const N: usize> Clone for BoundedBytes<N> {
    fn clone(&self) -> (r: Self)
        ensures
            r@ == self@,
    {
        proof { use_type_invariant(self); }
        BoundedBytes { bytes: self.bytes.clone() }
    }
}

impl<const N: usize> BoundedBytes<N> {
    #[verifier::type_invariant]
    spec fn within_capacity(self) -> bool {
        self.bytes@.len() <= N
    }

    /// Wraps `v` when it fits; hands it back unchanged otherwise.
    /// Nothing is truncated or normalised.
    pub fn try_from_vec(v: Vec<u8>) -> (r: Result<Self, Vec<u8>>)
        ensures
            r is Ok <==> v@.len() <= N,
            r matches Ok(b) ==> b@ == v@,
            r matches Err(e) ==> e@ == v@,
    {
        if v.len() <= N {
            Ok(BoundedBytes { bytes: v })
        } else {
            Err(v)
        }
    }

    pub fn empty() -> (r: Self)
        ensures
            r@ == Seq::<u8>::empty(),
    {
        BoundedBytes { bytes: Vec::new() }
    }

    pub fn len(&self) -> (r: usize)
        ensures
            r == self@.len(),
            r <= N,
    {
        proof { use_type_invariant(self); }
        self.bytes.len()
    }

    pub fn is_empty(&self) -> (r: bool)
        ensures
            r <==> self@.len() == 0,
    {
        self.bytes.len() == 0
    }

    pub fn as_slice(&self) -> (r: &[u8])
        ensures
            r@ == self@,
    {
        self.bytes.as_slice()
    }

    pub fn to_vec(&self) -> (r: Vec<u8>)
        ensures
            r@ == self@,
    {
        self.bytes.clone()
    }
}

} // verus!
