//! The FxHash state that packet generation draws its numbers from.
//!
//! A hasher is carried together with the sequence of words written into it,
//! so that what `finish` returns can be stated as a function of those words.
use vstd::prelude::*;
use std::hash::Hasher;
use fxhash::FxHasher;

verus! {

#[verifier::external_type_specification]
#[verifier::external_body]
pub struct ExFxHasher(FxHasher);

/// What `fxhash::FxHasher::finish` returns for a hasher made by
/// `FxHasher::default()` and then fed, in order, the words of `writes`, on a
/// target whose `usize` has `word_bits` bits. Each write is a value with the
/// width in bytes of the integer type it was written as (2, 4 or 8).
pub uninterp spec fn fx_finish(word_bits: u32, writes: Seq<(u64, u8)>) -> u64;

/// An `FxHasher` together with the words it has been fed.
pub(crate) struct FxState {
    hasher: FxHasher,
    writes: Ghost<Seq<(u64, u8)>>,
}

impl View for FxState {
    type V = Seq<(u64, u8)>;

    closed spec fn view(&self) -> Seq<(u64, u8)> {
        self.writes@
    }
}

impl FxState {
    /// A fresh hasher, made by `FxHasher::default()`; it has been fed nothing.
    #[verifier::external_body]
    pub(crate) fn new() -> (h: FxState)
        ensures
            h@ == Seq::<(u64, u8)>::empty(),
    {
        FxState { hasher: FxHasher::default(), writes: Ghost(Seq::empty()) }
    }

    /// Feeds `x` to the hasher by `Hasher::write_u16`; the contract records
    /// the word and its width, and claims nothing else.
    #[verifier::external_body]
    pub(crate) fn write_u16(&mut self, x: u16)
        ensures
            final(self)@ == old(self)@.push((x as u64, 2u8)),
    {
        self.hasher.write_u16(x);
        self.writes = Ghost(self.writes@.push((x as u64, 2u8)));
    }

    /// Feeds `x` to the hasher by `Hasher::write_u32`; the contract records
    /// the word and its width, and claims nothing else.
    #[verifier::external_body]
    pub(crate) fn write_u32(&mut self, x: u32)
        ensures
            final(self)@ == old(self)@.push((x as u64, 4u8)),
    {
        self.hasher.write_u32(x);
        self.writes = Ghost(self.writes@.push((x as u64, 4u8)));
    }

    /// Feeds `x` to the hasher by `Hasher::write_u64`; the contract records
    /// the word and its width, and claims nothing else.
    #[verifier::external_body]
    pub(crate) fn write_u64(&mut self, x: u64)
        ensures
            final(self)@ == old(self)@.push((x, 8u8)),
    {
        self.hasher.write_u64(x);
        self.writes = Ghost(self.writes@.push((x, 8u8)));
    }

    /// `Hasher::finish` of `FxHasher`: the contract names its result
    /// `fx_finish` of the words fed so far on this target, and says no more
    /// of how that value is computed.
    #[verifier::external_body]
    pub(crate) fn finish(&self) -> (r: u64)
        ensures
            r == fx_finish(usize::BITS, self@),
    {
        self.hasher.finish()
    }
}

} // verus!
