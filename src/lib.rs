//! An owned byte buffer meant to be encoded as one raw byte string rather
//! than as a sequence of small integers.
use vstd::prelude::*;
use vstd::std_specs::cmp::PartialEqSpec;
use vstd::std_specs::convert::FromSpec;

verus! {

/// An owned, growable sequence of bytes.
#[derive(Debug)]
pub struct Bytes(Vec<u8>);

impl View for Bytes {
    type V = Seq<u8>;

    /// The bytes held, in order.
    closed spec fn view(&self) -> Seq<u8> {
        self.0@
    }
}

impl From<Vec<u8>> for Bytes {
    /// Wraps `val`, taking ownership of it.
    fn from(val: Vec<u8>) -> (r: Bytes)
        ensures
            r@ == val@,
    {
        Bytes(val)
    }
}

impl vstd::std_specs::convert::FromSpecImpl<Vec<u8>> for Bytes {
    open spec fn obeys_from_spec() -> bool {
        true
    }

    closed spec fn from_spec(val: Vec<u8>) -> Bytes {
        Bytes(val)
    }
}

impl From<Bytes> for Vec<u8> {
    /// Unwraps `b`, handing its buffer back without copying.
    fn from(b: Bytes) -> (r: Vec<u8>)
        ensures
            r@ == b@,
    {
        b.0
    }
}

impl vstd::std_specs::convert::FromSpecImpl<Bytes> for Vec<u8> {
    open spec fn obeys_from_spec() -> bool {
        true
    }

    closed spec fn from_spec(b: Bytes) -> Vec<u8> {
        b.0
    }
}

impl std::ops::Deref for Bytes {
    type Target = Vec<u8>;

    /// Read access to the buffer itself.
    fn deref(&self) -> (r: &Vec<u8>)
        ensures
            r@ == self@,
    {
        &self.0
    }
}

impl std::ops::DerefMut for Bytes {
    /// Write access to the buffer itself: whatever is done through the
    /// returned reference is what the wrapper holds afterwards.
    fn deref_mut(&mut self) -> (r: &mut Vec<u8>)
        ensures
            r@ == old(self)@,
            final(self)@ == final(r)@,
    {
        &mut self.0
    }
}

impl Default for Bytes {
    /// An empty buffer.
    fn default() -> (r: Bytes)
        ensures
            r@ == Seq::<u8>::empty(),
    {
        Bytes(Vec::new())
    }
}

impl PartialEq for Bytes {
    /// Two wrappers are equal when they hold the same bytes in the same order.
    fn eq(&self, other: &Bytes) -> (r: bool)
        ensures
            r == (self@ == other@),
    {
        let r = self.0 == other.0;
        proof {
            if r {
                assert(self.0@ =~= other.0@);
            }
        }
        r
    }
}

impl vstd::std_specs::cmp::PartialEqSpecImpl for Bytes {
    open spec fn obeys_eq_spec() -> bool {
        true
    }

    closed spec fn eq_spec(&self, other: &Bytes) -> bool {
        self.0@ == other.0@
    }
}

impl Eq for Bytes {
}

impl Clone for Bytes {
    /// A copy holding the same bytes.
    fn clone(&self) -> (r: Bytes)
        ensures
            r@ == self@,
    {
        let v = self.0.clone();
        proof {
            assert(v@ =~= self.0@);
        }
        Bytes(v)
    }
}

/// Unwrapping a buffer that was just wrapped gives back exactly that buffer.
pub proof fn lemma_round_trip(x: Vec<u8>)
    ensures
        <Vec<u8> as FromSpec<Bytes>>::from_spec(<Bytes as FromSpec<Vec<u8>>>::from_spec(x)) == x,
{
}

/// Two wrappers built from byte sequences are equal exactly when those
/// sequences are equal.
pub proof fn lemma_eq_structural(x: Vec<u8>, y: Vec<u8>)
    ensures
        <Bytes as FromSpec<Vec<u8>>>::from_spec(x).eq_spec(
            &<Bytes as FromSpec<Vec<u8>>>::from_spec(y),
        ) == (x@ == y@),
{
}

} // verus!
