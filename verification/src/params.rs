//! The parameter store: a three-component direction vector that the host
//! owns and mirrors into GPU memory by overwriting the whole buffer.
//!
//! Components are single-precision numbers. They are held here as their
//! IEEE-754 bit patterns; the trigonometry that produces them is done by the
//! caller.

use vstd::prelude::*;

verus! {

/// Number of components in the parameter vector.
pub const PARAMETER_COMPONENTS: usize = 3;

/// Size of the GPU mirror of the parameter vector, in bytes.
pub const PARAMETER_BYTES: u64 = 12;

/// Bit pattern of the single-precision number one.
pub const ONE_BITS: u32 = 0x3F80_0000;

/// Bit pattern of the single-precision number zero.
pub const ZERO_BITS: u32 = 0;

/// One key press worth of rotation.
#[derive(Clone, Copy, Debug, PartialEq, Eq, Structural)]
pub enum AngleStep {
    Increase,
    Decrease,
}

impl AngleStep {
    /// The signed size of the step, in tenths of a radian.
    pub open spec fn spec_tenths(self) -> int {
        match self {
            AngleStep::Increase => 1,
            AngleStep::Decrease => -1,
        }
    }

    /// The signed size of the step, in tenths of a radian.
    pub fn tenths(self) -> (t: i32)
        ensures
            t == self.spec_tenths(),
    {
        match self {
            AngleStep::Increase => 1,
            AngleStep::Decrease => -1,
        }
    }

    /// The step that undoes this one.
    pub open spec fn spec_inverse(self) -> AngleStep {
        match self {
            AngleStep::Increase => AngleStep::Decrease,
            AngleStep::Decrease => AngleStep::Increase,
        }
    }

    /// The step that undoes this one.
    pub fn inverse(self) -> (s: AngleStep)
        ensures
            s == self.spec_inverse(),
            s.spec_tenths() == -self.spec_tenths(),
    {
        match self {
            AngleStep::Increase => AngleStep::Decrease,
            AngleStep::Decrease => AngleStep::Increase,
        }
    }
}

/// The four bytes of a word, least significant first.
pub open spec fn le_bytes(word: u32) -> Seq<u8> {
    seq![
        (word % 0x100) as u8,
        (word / 0x100 % 0x100) as u8,
        (word / 0x1_0000 % 0x100) as u8,
        (word / 0x100_0000) as u8,
    ]
}

/// The four bytes of a word, most significant first.
pub open spec fn be_bytes(word: u32) -> Seq<u8> {
    seq![
        (word / 0x100_0000) as u8,
        (word / 0x1_0000 % 0x100) as u8,
        (word / 0x100 % 0x100) as u8,
        (word % 0x100) as u8,
    ]
}

/// The memory image of a sequence of words under one of the two byte orders.
pub open spec fn words_as_bytes(words: Seq<u32>, big_endian: bool) -> Seq<u8> {
    Seq::new(
        4 * words.len(),
        |i: int|
            if big_endian {
                be_bytes(words[i / 4])[i % 4]
            } else {
                le_bytes(words[i / 4])[i % 4]
            },
    )
}

/// Calls `bytemuck::cast_slice` to view three 32-bit words as bytes, and
/// copies the bytes out.
///
/// Trusted: the cast reinterprets the words' memory, so the result holds four
/// bytes per word, in the order of the words, each word laid out in the byte
/// order of the machine, which is either least or most significant byte
/// first. A byte is never more aligned than a word and divides its size, so
/// the cast cannot fail.
#[verifier::external_body]
fn words_to_bytes(words: &[u32; 3]) -> (bytes: Vec<u8>)
    ensures
        bytes@ == words_as_bytes(words@, false) || bytes@ == words_as_bytes(words@, true),
{
    bytemuck::cast_slice::<u32, u8>(words).to_vec()
}

/// A full overwrite of the GPU mirror: `bytes` go to the buffer starting at
/// `offset`.
#[derive(Debug)]
pub struct ParameterWrite {
    pub offset: u64,
    pub bytes: Vec<u8>,
}

/// The direction vector `(x, y, z)`. The third component is always zero.
#[derive(Clone, Copy, Debug)]
pub struct ParameterVector {
    components: [u32; 3],
}

impl ParameterVector {
    #[verifier::type_invariant]
    closed spec fn inv(self) -> bool {
        self.components[2] == ZERO_BITS
    }

    /// The bit patterns of the three components, in order.
    pub closed spec fn spec_components(self) -> Seq<u32> {
        self.components@
    }

    /// A vector as a specification value is meaningful when it has three
    /// components of which the last is zero; every vector that executable
    /// code holds is.
    pub open spec fn wf(self) -> bool {
        &&& self.spec_components().len() == 3
        &&& self.spec_components()[2] == ZERO_BITS
    }

    /// The vector at angle zero: `(1, 0, 0)`.
    pub fn new() -> (v: ParameterVector)
        ensures
            v.spec_components() == seq![ONE_BITS, ZERO_BITS, ZERO_BITS],
            v.wf(),
    {
        ParameterVector { components: [ONE_BITS, ZERO_BITS, ZERO_BITS] }
    }

    /// Replaces the first two components by the cosine and the sine of the
    /// current angle, given as bit patterns. The third stays zero.
    pub fn set_direction(&mut self, cos_bits: u32, sin_bits: u32)
        ensures
            final(self).spec_components() == seq![cos_bits, sin_bits, ZERO_BITS],
            final(self).wf(),
    {
        self.components = [cos_bits, sin_bits, ZERO_BITS];
    }

    /// The bit patterns of the three components, in order.
    pub fn components(&self) -> (c: [u32; 3])
        ensures
            c@ == self.spec_components(),
            self.wf(),
    {
        proof {
            use_type_invariant(self);
        }
        self.components
    }

    /// The write that refreshes the GPU mirror: all twelve bytes, from offset
    /// zero, in the byte order of the machine.
    pub fn upload(&self) -> (w: ParameterWrite)
        ensures
            w.offset == 0,
            w.bytes@.len() == PARAMETER_BYTES,
            w.bytes@ == words_as_bytes(self.spec_components(), false) || w.bytes@
                == words_as_bytes(self.spec_components(), true),
            forall|i: int| 8 <= i < 12 ==> w.bytes@[i] == 0,
    {
        proof {
            use_type_invariant(self);
        }
        let bytes = words_to_bytes(&self.components);
        ParameterWrite { offset: 0, bytes }
    }
}

} // verus!
