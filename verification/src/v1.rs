//! The thin collaborators around the mixing engine: the aligned input
//! container, the reusable scratchpad, and the two entry points that hand a
//! 200-byte input to the engine and return the 32-byte digest.
use crate::engine::astrobwtv3_hash;
use crate::model::hash_spec;
use vstd::prelude::*;

verus! {

/// The one failure the input container can report: a byte view of the
/// documented size cannot be produced. The hash itself cannot fail.
#[derive(Clone, Copy, Debug, PartialEq, Eq, Structural)]
pub enum Error {
    FormatError,
}

/// Bytes of input every hash invocation reads.
pub const BYTES_ARRAY_INPUT: usize = 200;

/// The alignment granule of the input container.
pub const ALIGNMENT: usize = 8;

/// Words of the reusable scratchpad.
pub const MEMORY_SIZE: usize = 32768;

/// An 8-byte alignment granule: the unit the input container's capacity is
/// counted in.
#[derive(Clone, Copy, Debug)]
pub struct Bytes8Alignment(pub [u8; 8]);

/// A 200-byte input buffer, its capacity counted in 8-byte granules so a
/// caller can treat it as 25 aligned words.
#[derive(Clone, Debug)]
pub struct AlignedInput {
    data: [u8; BYTES_ARRAY_INPUT],
}

impl View for AlignedInput {
    type V = Seq<u8>;

    closed spec fn view(&self) -> Seq<u8> {
        self.data@
    }
}

impl Default for AlignedInput {
    /// A zeroed input buffer.
    fn default() -> (result: AlignedInput)
        ensures
            result@.len() == BYTES_ARRAY_INPUT,
            forall|i: int| 0 <= i < BYTES_ARRAY_INPUT ==> result@[i] == 0u8,
    {
        AlignedInput { data: [0u8; BYTES_ARRAY_INPUT] }
    }
}

impl AlignedInput {
    /// The number of 8-byte granules in the buffer.
    pub fn len(&self) -> (r: usize)
        ensures
            r == BYTES_ARRAY_INPUT / ALIGNMENT,
    {
        BYTES_ARRAY_INPUT / ALIGNMENT
    }

    /// The size of the buffer in bytes.
    pub fn size(&self) -> (r: usize)
        ensures
            r == BYTES_ARRAY_INPUT,
    {
        BYTES_ARRAY_INPUT
    }

    /// The buffer as a mutable 200-byte view; never fails in this
    /// representation.
    pub fn as_mut_slice(&mut self) -> (r: Result<&mut [u8; BYTES_ARRAY_INPUT], Error>)
        ensures
            r matches Ok(s) && s@ == old(self)@ && final(self)@ == final(s)@,
    {
        Ok(&mut self.data)
    }

    /// The buffer as a 200-byte view; never fails in this representation.
    pub fn as_slice(&self) -> (r: Result<&[u8; BYTES_ARRAY_INPUT], Error>)
        ensures
            r matches Ok(s) && s@ == self@,
    {
        Ok(&self.data)
    }
}

/// A reusable scratchpad of 32768 words. The digest never depends on what a
/// previous invocation left in it: the engine zeroes its own scratch space,
/// so a fresh and a reused pad give identical results.
#[derive(Clone, Debug)]
pub struct ScratchPad([u64; MEMORY_SIZE]);

impl View for ScratchPad {
    type V = Seq<u64>;

    closed spec fn view(&self) -> Seq<u64> {
        self.0@
    }
}

impl Default for ScratchPad {
    /// A zeroed scratchpad.
    fn default() -> (result: ScratchPad)
        ensures
            result@.len() == MEMORY_SIZE,
            forall|i: int| 0 <= i < MEMORY_SIZE ==> result@[i] == 0u64,
    {
        ScratchPad([0u64; MEMORY_SIZE])
    }
}

impl ScratchPad {
    /// The number of words in the scratchpad.
    pub fn len(&self) -> (r: usize)
        ensures
            r == MEMORY_SIZE,
    {
        MEMORY_SIZE
    }

    /// The scratchpad as a mutable word view.
    pub fn as_mut_slice(&mut self) -> (r: &mut [u64; MEMORY_SIZE])
        ensures
            r@ == old(self)@,
            final(self)@ == final(r)@,
    {
        &mut self.0
    }
}

/// Hashes a 200-byte input. The scratchpad argument is a reusable buffer a
/// caller may share across invocations; the digest is a function of the
/// input bytes alone, so its prior contents never show in the result.
pub fn xelis_hash(input: &mut [u8; BYTES_ARRAY_INPUT], scratch_pad: &mut ScratchPad) -> (r: Result<
    [u8; 32],
    Error,
>)
    ensures
        r matches Ok(h) && h@ == hash_spec(old(input)@),
        *final(input) == *old(input),
        final(scratch_pad)@ == old(scratch_pad)@,
{
    let hash = astrobwtv3_hash(input.as_slice());
    Ok(hash)
}

/// Hashes a 200-byte input.
pub fn vyridium_hash(input: &[u8; BYTES_ARRAY_INPUT]) -> (r: Result<[u8; 32], Error>)
    ensures
        r matches Ok(h) && h@ == hash_spec(input@),
{
    let hash = astrobwtv3_hash(input.as_slice());
    Ok(hash)
}

} // verus!
