//! Box constraints.
use vstd::prelude::*;
use crate::length::Length;
use crate::size::Size;

verus! {

/// The larger of two extents.
pub open spec fn larger(a: u32, b: u32) -> u32 {
    if a >= b {
        a
    } else {
        b
    }
}

/// The smaller of two extents.
pub open spec fn smaller(a: u32, b: u32) -> u32 {
    if a <= b {
        a
    } else {
        b
    }
}

/// What a [`Limits`] stands for: on each axis the least extent, the greatest
/// extent, and the extent that a widget is stretched to where its own is
/// smaller.
pub struct LimitsView {
    /// The least extent.
    pub min: Size,
    /// The greatest extent.
    pub max: Size,
    /// The extent that a smaller widget is stretched to.
    pub fill: Size,
}

impl LimitsView {
    /// On both axes, the least extent is not above the fill extent, which is
    /// not above the greatest.
    pub open spec fn wf(self) -> bool {
        &&& self.min.width <= self.fill.width <= self.max.width
        &&& self.min.height <= self.fill.height <= self.max.height
    }

    /// The limits from `min` to `max`, filling all of it. Where `max` is
    /// below `min` on an axis, `min` is taken for both.
    pub open spec fn new(min: Size, max: Size) -> LimitsView {
        let max = Size {
            width: larger(max.width, min.width),
            height: larger(max.height, min.height),
        };
        LimitsView { min, max, fill: max }
    }

    /// These limits after a widget has asked for `width`.
    pub open spec fn width(self, width: Length) -> LimitsView {
        match width {
            Length::Shrink => LimitsView {
                fill: Size { width: self.min.width, height: self.fill.height },
                ..self
            },
            Length::Fill | Length::FillPortion(_) => LimitsView {
                fill: Size {
                    width: smaller(self.fill.width, self.max.width),
                    height: self.fill.height,
                },
                ..self
            },
            Length::Units(units) => {
                let exact = larger(smaller(units, self.max.width), self.min.width);
                LimitsView {
                    min: Size { width: exact, height: self.min.height },
                    max: Size { width: exact, height: self.max.height },
                    fill: Size { width: exact, height: self.fill.height },
                }
            },
        }
    }

    /// These limits after a widget has asked for `height`.
    pub open spec fn height(self, height: Length) -> LimitsView {
        match height {
            Length::Shrink => LimitsView {
                fill: Size { width: self.fill.width, height: self.min.height },
                ..self
            },
            Length::Fill | Length::FillPortion(_) => LimitsView {
                fill: Size {
                    width: self.fill.width,
                    height: smaller(self.fill.height, self.max.height),
                },
                ..self
            },
            Length::Units(units) => {
                let exact = larger(smaller(units, self.max.height), self.min.height);
                LimitsView {
                    min: Size { width: self.min.width, height: exact },
                    max: Size { width: self.max.width, height: exact },
                    fill: Size { width: self.fill.width, height: exact },
                }
            },
        }
    }

    /// These limits with `amount` taken from every extent, none going below
    /// zero.
    pub open spec fn shrink(self, amount: Size) -> LimitsView {
        LimitsView {
            min: self.min.shrink(amount),
            max: self.max.shrink(amount),
            fill: self.fill.shrink(amount),
        }
    }

    /// These limits with `padding` taken off on all four sides.
    pub open spec fn pad(self, padding: u16) -> LimitsView {
        self.shrink(Size { width: (2 * padding) as u32, height: (2 * padding) as u32 })
    }

    /// The extent of a widget whose own extent is `intrinsic`: cut down to
    /// the greatest extent, then stretched to the fill extent.
    pub open spec fn resolve(self, intrinsic: Size) -> Size {
        Size {
            width: larger(smaller(intrinsic.width, self.max.width), self.fill.width),
            height: larger(smaller(intrinsic.height, self.max.height), self.fill.height),
        }
    }

    /// Whether `size` lies between the least and the greatest extent.
    pub open spec fn admits(self, size: Size) -> bool {
        &&& self.min.width <= size.width <= self.max.width
        &&& self.min.height <= size.height <= self.max.height
    }

    /// Limits made by `new` are ordered, every transformation keeps them
    /// ordered, and an extent resolved under ordered limits lies within
    /// them.
    pub proof fn lemma_limits_stay_ordered(
        self,
        min: Size,
        max: Size,
        length: Length,
        amount: Size,
        padding: u16,
        intrinsic: Size,
    )
        requires
            self.wf(),
        ensures
            Self::new(min, max).wf(),
            self.width(length).wf(),
            self.height(length).wf(),
            self.shrink(amount).wf(),
            self.pad(padding).wf(),
            self.admits(self.resolve(intrinsic)),
    {
    }
}

/// The space that a parent offers to a widget.
#[derive(Debug, Clone, Copy)]
pub struct Limits {
    min: Size,
    max: Size,
    fill: Size,
}

impl View for Limits {
    type V = LimitsView;

    closed spec fn view(&self) -> LimitsView {
        LimitsView { min: self.min, max: self.max, fill: self.fill }
    }
}

fn larger_of(a: u32, b: u32) -> (r: u32)
    ensures
        r == larger(a, b),
{
    if a >= b {
        a
    } else {
        b
    }
}

fn smaller_of(a: u32, b: u32) -> (r: u32)
    ensures
        r == smaller(a, b),
{
    if a <= b {
        a
    } else {
        b
    }
}

impl Limits {
    /// Every `Limits` is ordered.
    #[verifier::type_invariant]
    pub open spec fn ordered(self) -> bool {
        self@.wf()
    }

    /// Creates limits from `min` to `max` that fill all of the space. Where
    /// `max` is below `min` on an axis, `min` is taken for both.
    pub fn new(min: Size, max: Size) -> (limits: Limits)
        ensures
            limits@ == LimitsView::new(min, max),
            limits@.wf(),
    {
        let max = Size {
            width: larger_of(max.width, min.width),
            height: larger_of(max.height, min.height),
        };
        Limits { min, max, fill: max }
    }

    /// Returns the least extent.
    pub fn min(&self) -> (min: Size)
        ensures
            min == self@.min,
    {
        self.min
    }

    /// Returns the greatest extent.
    pub fn max(&self) -> (max: Size)
        ensures
            max == self@.max,
    {
        self.max
    }

    /// Applies the width that a widget asks for.
    pub fn width(self, width: Length) -> (limits: Limits)
        ensures
            limits@ == self@.width(width),
            limits@.wf(),
    {
        proof {
            use_type_invariant(&self);
        }
        match width {
            Length::Shrink => Limits {
                min: self.min,
                max: self.max,
                fill: Size { width: self.min.width, height: self.fill.height },
            },
            Length::Fill | Length::FillPortion(_) => Limits {
                min: self.min,
                max: self.max,
                fill: Size {
                    width: smaller_of(self.fill.width, self.max.width),
                    height: self.fill.height,
                },
            },
            Length::Units(units) => {
                let exact = larger_of(smaller_of(units, self.max.width), self.min.width);
                Limits {
                    min: Size { width: exact, height: self.min.height },
                    max: Size { width: exact, height: self.max.height },
                    fill: Size { width: exact, height: self.fill.height },
                }
            },
        }
    }

    /// Applies the height that a widget asks for.
    pub fn height(self, height: Length) -> (limits: Limits)
        ensures
            limits@ == self@.height(height),
            limits@.wf(),
    {
        proof {
            use_type_invariant(&self);
        }
        match height {
            Length::Shrink => Limits {
                min: self.min,
                max: self.max,
                fill: Size { width: self.fill.width, height: self.min.height },
            },
            Length::Fill | Length::FillPortion(_) => Limits {
                min: self.min,
                max: self.max,
                fill: Size {
                    width: self.fill.width,
                    height: smaller_of(self.fill.height, self.max.height),
                },
            },
            Length::Units(units) => {
                let exact = larger_of(smaller_of(units, self.max.height), self.min.height);
                Limits {
                    min: Size { width: self.min.width, height: exact },
                    max: Size { width: self.max.width, height: exact },
                    fill: Size { width: self.fill.width, height: exact },
                }
            },
        }
    }

    /// Takes `amount` from every extent, none going below zero.
    pub fn shrink(&self, amount: Size) -> (limits: Limits)
        ensures
            limits@ == self@.shrink(amount),
            limits@.wf(),
    {
        proof {
            use_type_invariant(self);
        }
        Limits {
            min: self.min.shrink(amount),
            max: self.max.shrink(amount),
            fill: self.fill.shrink(amount),
        }
    }

    /// Takes `padding` off on all four sides.
    pub fn pad(&self, padding: u16) -> (limits: Limits)
        ensures
            limits@ == self@.pad(padding),
            limits@.wf(),
    {
        let twice: u32 = 2 * (padding as u32);
        self.shrink(Size { width: twice, height: twice })
    }

    /// Settles the extent of a widget whose own extent is `intrinsic`.
    pub fn resolve(&self, intrinsic: Size) -> (size: Size)
        ensures
            size == self@.resolve(intrinsic),
            self@.admits(size),
    {
        proof {
            use_type_invariant(self);
        }
        Size {
            width: larger_of(smaller_of(intrinsic.width, self.max.width), self.fill.width),
            height: larger_of(smaller_of(intrinsic.height, self.max.height), self.fill.height),
        }
    }
}

} // verus!
