//! Hashing of what decides a layout.
use vstd::prelude::*;

verus! {

/// The digest of no words.
pub const OFFSET_BASIS: u64 = 0xcbf2_9ce4_8422_2325;

/// The factor that each word is mixed in with.
pub const PRIME: u64 = 0x0000_0100_0000_01b3;

/// The digest `state` after `word` is mixed in.
pub open spec fn mix(state: u64, word: u64) -> u64 {
    (state ^ word).wrapping_mul(PRIME)
}

/// The digest of `words`, mixed in first to last.
pub open spec fn digest(words: Seq<u64>) -> u64
    decreases words.len(),
{
    if words.len() == 0 {
        OFFSET_BASIS
    } else {
        mix(digest(words.drop_last()), words.last())
    }
}

/// Collects the words that widgets write about their layout and keeps the
/// digest of them. It stands for the sequence of words written so far.
pub struct Hasher {
    state: u64,
    written: Ghost<Seq<u64>>,
}

impl View for Hasher {
    type V = Seq<u64>;

    closed spec fn view(&self) -> Seq<u64> {
        self.written@
    }
}

impl Hasher {
    /// The state is the digest of the words written.
    #[verifier::type_invariant]
    closed spec fn consistent(self) -> bool {
        self.state == digest(self.written@)
    }

    /// Creates a hasher that nothing was written to.
    pub fn new() -> (hasher: Hasher)
        ensures
            hasher@ == Seq::<u64>::empty(),
    {
        Hasher { state: OFFSET_BASIS, written: Ghost(Seq::empty()) }
    }

    /// Writes one word.
    pub fn write_u64(&mut self, word: u64)
        ensures
            final(self)@ == old(self)@.push(word),
    {
        proof {
            use_type_invariant(&*self);
            assert(self.written@.push(word).drop_last() =~= self.written@);
        }
        let state = (self.state ^ word).wrapping_mul(PRIME);
        let ghost written = self.written@.push(word);
        *self = Hasher { state, written: Ghost(written) };
    }

    /// Returns the digest of the words written so far. Equal sequences of
    /// words have equal digests.
    pub fn finish(&self) -> (hash: u64)
        ensures
            hash == digest(self@),
    {
        proof {
            use_type_invariant(self);
        }
        self.state
    }
}

} // verus!
