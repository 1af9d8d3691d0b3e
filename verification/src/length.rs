//! Sizing policies.
use vstd::prelude::*;
use crate::hasher::Hasher;

verus! {

/// How a widget wants to be sized along one axis.
#[derive(Debug, Clone, Copy, PartialEq, Eq, Structural)]
pub enum Length {
    /// Take all the space that is left.
    Fill,
    /// Take a share of the space that is left, in proportion to the factor.
    FillPortion(u16),
    /// Take as little space as possible.
    Shrink,
    /// Take exactly this many units, as far as the limits allow.
    Units(u32),
}

impl Length {
    /// The words that stand for this policy in a layout hash: the number of
    /// the variant, then what the variant holds.
    pub open spec fn words(self) -> Seq<u64> {
        match self {
            Length::Fill => seq![0u64],
            Length::FillPortion(factor) => seq![1u64, factor as u64],
            Length::Shrink => seq![2u64],
            Length::Units(units) => seq![3u64, units as u64],
        }
    }

    /// Writes this policy to `state`.
    pub fn hash(&self, state: &mut Hasher)
        ensures
            final(state)@ == old(state)@ + self.words(),
    {
        match *self {
            Length::Fill => {
                state.write_u64(0);
            },
            Length::FillPortion(factor) => {
                state.write_u64(1);
                state.write_u64(factor as u64);
            },
            Length::Shrink => {
                state.write_u64(2);
            },
            Length::Units(units) => {
                state.write_u64(3);
                state.write_u64(units as u64);
            },
        }
        assert(state@ =~= old(state)@ + self.words());
    }

    proof fn lemma_words_shape(self)
        ensures
            match self {
                Length::Fill => self.words().len() == 1 && self.words()[0] == 0,
                Length::FillPortion(factor) => self.words().len() == 2 && self.words()[0] == 1
                    && self.words()[1] == factor,
                Length::Shrink => self.words().len() == 1 && self.words()[0] == 2,
                Length::Units(units) => self.words().len() == 2 && self.words()[0] == 3
                    && self.words()[1] == units,
            },
    {
    }

    /// Two policies with the same words are the same policy.
    pub proof fn lemma_words_tell_apart(self, other: Length)
        requires
            self.words() == other.words(),
        ensures
            self == other,
    {
        self.lemma_words_shape();
        other.lemma_words_shape();
    }
}

} // verus!
