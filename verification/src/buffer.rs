//! The fixed-size value type holding the state of one lighting universe.

use vstd::prelude::*;

verus! {

/// Number of channel values in one universe.
pub const UNIVERSE_SIZE: usize = 512;

/// A fixed-size byte buffer representing the state of a single DMX universe.
///
/// A `DmxBuffer` holds exactly 512 bytes. Buffer-like sources such as slices
/// and vectors can be converted to a `DmxBuffer`, but the conversion fails
/// with [`TryFromBufferError`] unless the source is exactly 512 bytes long;
/// a source is never truncated or padded.
#[derive(Debug)]
pub struct DmxBuffer {
    data: Vec<u8>,
}

impl View for DmxBuffer {
    type V = Seq<u8>;

    closed spec fn view(&self) -> Seq<u8> {
        self.data@
    }
}

impl Clone for DmxBuffer {
    /// Copies all 512 channel values.
    fn clone(&self) -> (r: Self)
        ensures
            r@ == self@,
    {
        proof {
            use_type_invariant(self);
        }
        let mut data: Vec<u8> = Vec::new();
        data.extend_from_slice(self.data.as_slice());
        DmxBuffer { data }
    }
}

impl PartialEq for DmxBuffer {
    fn eq(&self, other: &Self) -> (r: bool)
        ensures
            r == (self@ =~= other@),
    {
        crate::wire::bytes_equal(self.data.as_slice(), other.data.as_slice())
    }
}

impl Eq for DmxBuffer {}

impl vstd::std_specs::cmp::PartialEqSpecImpl for DmxBuffer {
    open spec fn obeys_eq_spec() -> bool {
        true
    }

    open spec fn eq_spec(&self, other: &Self) -> bool {
        self@ =~= other@
    }
}

impl DmxBuffer {
    /// Exactly 512 bytes, always.
    #[verifier::type_invariant]
    spec fn size_invariant(self) -> bool {
        self.data@.len() == UNIVERSE_SIZE
    }

    /// Construct an empty (zeroed) DMX buffer.
    pub fn new() -> (r: Self)
        ensures
            r@ =~= Seq::new(512, |i: int| 0u8),
    {
        DmxBuffer { data: vec![0u8; UNIVERSE_SIZE] }
    }

    /// Set all values in a DMX buffer to zero.
    pub fn zero(&mut self)
        ensures
            final(self)@ =~= Seq::new(512, |i: int| 0u8),
    {
        proof {
            use_type_invariant(&*self);
        }
        let mut i: usize = 0;
        while i < UNIVERSE_SIZE
            invariant
                i <= 512,
                self.data@.len() == 512,
                forall|j: int| 0 <= j < i ==> self.data@[j] == 0u8,
            decreases 512 - i,
        {
            self.data[i] = 0;
            i = i + 1;
        }
    }

    /// Copy a slice into a new DMX buffer. Succeeds exactly when the slice
    /// is 512 bytes long; the buffer then holds the same bytes.
    pub fn try_from_slice(b: &[u8]) -> (r: Result<Self, TryFromBufferError>)
        ensures
            b@.len() == 512 ==> (r matches Ok(buf) && buf@ == b@),
            b@.len() != 512 ==> (r matches Err(TryFromBufferError)),
    {
        if b.len() != UNIVERSE_SIZE {
            return Err(TryFromBufferError);
        }
        let mut data: Vec<u8> = Vec::new();
        data.extend_from_slice(b);
        Ok(DmxBuffer { data })
    }

    /// Take ownership of a vector as a DMX buffer. Succeeds exactly when the
    /// vector is 512 bytes long; the buffer then holds the same bytes.
    pub fn try_from_vec(b: Vec<u8>) -> (r: Result<Self, TryFromBufferError>)
        ensures
            b@.len() == 512 ==> (r matches Ok(buf) && buf@ == b@),
            b@.len() != 512 ==> (r matches Err(TryFromBufferError)),
    {
        if b.len() != UNIVERSE_SIZE {
            return Err(TryFromBufferError);
        }
        Ok(DmxBuffer { data: b })
    }

    /// The number of channels; always 512.
    pub fn len(&self) -> (r: usize)
        ensures
            r == self@.len(),
            r == 512,
    {
        proof {
            use_type_invariant(self);
        }
        self.data.len()
    }

    /// Read one channel value.
    pub fn get(&self, index: usize) -> (r: u8)
        requires
            index < 512,
        ensures
            r == self@[index as int],
    {
        proof {
            use_type_invariant(self);
        }
        self.data[index]
    }

    /// Write one channel value.
    pub fn set(&mut self, index: usize, value: u8)
        requires
            index < 512,
        ensures
            final(self)@ == old(self)@.update(index as int, value),
    {
        proof {
            use_type_invariant(&*self);
        }
        self.data[index] = value;
    }

    /// View the buffer as a byte slice.
    pub fn as_slice(&self) -> (r: &[u8])
        ensures
            r@ == self@,
            r@.len() == 512,
    {
        proof {
            use_type_invariant(self);
        }
        self.data.as_slice()
    }

    /// Copy the buffer into a fresh vector of 512 bytes.
    pub fn to_vec(&self) -> (r: Vec<u8>)
        ensures
            r@ == self@,
            r@.len() == 512,
    {
        proof {
            use_type_invariant(self);
        }
        let mut data: Vec<u8> = Vec::new();
        data.extend_from_slice(self.data.as_slice());
        data
    }

    /// Move the buffer's bytes out as a vector of 512 bytes.
    pub fn into_vec(self) -> (r: Vec<u8>)
        ensures
            r@ == self@,
            r@.len() == 512,
    {
        proof {
            use_type_invariant(&self);
        }
        self.data
    }
}

/// The error type returned when a conversion to a DMX buffer fails because
/// the source is not exactly 512 bytes long.
#[derive(Clone, Copy, Debug, PartialEq, Eq, Structural)]
pub struct TryFromBufferError;

} // verus!
