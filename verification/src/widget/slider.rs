//! A horizontal bar with a handle that selects one value of a range.
//!
//! A [`Slider`] is rebuilt for every frame; what has to outlive a frame is
//! kept in a [`State`] that the application owns and lends to the slider.
use std::ops::RangeInclusive;
use vstd::prelude::*;
use vstd::std_specs::range::RangeInclusiveView;
use crate::clipboard::Clipboard;
use crate::element::Element;
use crate::event::Event;
use crate::hasher::Hasher;
use crate::layout::limits::LimitsView;
use crate::layout::node::NodeView;
use crate::layout::{Layout, LayoutView, Limits, Node};
use crate::length::Length;
use crate::mouse;
use crate::point::Point;
use crate::rectangle::Rectangle;
use crate::size::Size;
use crate::widget::Widget;

verus! {

/// `std::ops::RangeInclusive::into_inner`, which takes a range apart into
/// its lower and its upper bound. Not proved here: the pair it returns is
/// the `start` and the `end` that the range is known by in contracts.
pub assume_specification<Idx>[ RangeInclusive::<Idx>::into_inner ](
    range: RangeInclusive<Idx>,
) -> (bounds: (Idx, Idx))
    ensures
        bounds.0 == range@.start,
        bounds.1 == range@.end,
;

/// What a slider keeps between frames: whether its handle is being dragged.
#[derive(Debug, Clone, Copy, PartialEq, Eq, Structural)]
pub struct State {
    is_dragging: bool,
}

impl State {
    /// Whether the handle is being dragged.
    pub closed spec fn spec_is_dragging(&self) -> bool {
        self.is_dragging
    }

    /// The state of a slider that is not being dragged.
    pub closed spec fn spec_new() -> State {
        State { is_dragging: false }
    }

    /// Creates the state of a slider that is not being dragged.
    #[verifier::when_used_as_spec(spec_new)]
    pub fn new() -> (state: State)
        ensures
            state == Self::spec_new(),
            !state.is_dragging(),
    {
        State { is_dragging: false }
    }

    /// A state holds nothing but the flag: two states with the same flag
    /// are the same state, and the state that `new` makes is not dragging.
    pub proof fn lemma_flag_is_all(self, other: State)
        ensures
            self.is_dragging() == other.is_dragging() ==> self == other,
            !Self::new().is_dragging(),
    {
    }

    /// Tells whether the handle is being dragged.
    #[verifier::when_used_as_spec(spec_is_dragging)]
    pub fn is_dragging(&self) -> (dragging: bool)
        ensures
            dragging == self.spec_is_dragging(),
    {
        self.is_dragging
    }
}

impl Default for State {
    /// The default state is the one that `new` makes.
    fn default() -> (state: State)
        ensures
            state == State::new(),
            !state.is_dragging(),
    {
        State::new()
    }
}

/// What a renderer provides to show a [`Slider`].
///
/// Beside each operation stands a predicate that says which outcomes the
/// operation may have. By default it leaves every outcome open; a renderer
/// that is verified defines it and is held to it.
pub trait Renderer: crate::renderer::Renderer {
    /// How the slider looks.
    type Style: Default;

    /// Whether the renderer may give `height` as the natural height of a
    /// slider.
    open spec fn reports_height(&self, height: u32) -> bool {
        true
    }

    /// Whether drawing a slider with what is given may produce `output` and
    /// leave the renderer as `after`.
    open spec fn draws(
        &self,
        bounds: Rectangle,
        cursor_position: Point,
        range: RangeInclusiveView<i64>,
        value: i64,
        is_dragging: bool,
        style: Self::Style,
        output: Self::Output,
        after: Self,
    ) -> bool {
        true
    }

    /// Returns the height that a slider naturally has.
    fn height(&self) -> (height: u32)
        ensures
            self.reports_height(height),
    ;

    /// Draws a slider in `bounds` that shows `value` out of `range`, with
    /// its handle held or not.
    fn draw(
        &mut self,
        bounds: Rectangle,
        cursor_position: Point,
        range: RangeInclusive<i64>,
        value: i64,
        is_dragging: bool,
        style: &Self::Style,
    ) -> (output: Self::Output)
        ensures
            old(self).draws(
                bounds,
                cursor_position,
                range@,
                value,
                is_dragging,
                *style,
                output,
                *final(self),
            ),
    ;
}

/// `value` brought into the range: raised to `start` first, then lowered to
/// `end`. With `end` below `start` this is `end`.
pub open spec fn clamped(value: i64, start: i64, end: i64) -> i64 {
    let raised = if value >= start {
        value
    } else {
        start
    };
    if raised <= end {
        raised
    } else {
        end
    }
}

/// Whether `value` lies between `start` and `end`, whichever of the two is
/// the larger.
pub open spec fn between(start: i64, end: i64, value: i64) -> bool {
    ||| start <= value <= end
    ||| end <= value <= start
}

/// The value `offset` units into a bar that is `width` units wide: the part
/// `offset / width` of the way from `start` to `end`, rounded towards
/// `start`.
pub open spec fn interpolated(start: int, end: int, offset: int, width: int) -> int {
    if end >= start {
        start + ((end - start) * offset) / width
    } else {
        start - ((start - end) * offset) / width
    }
}

/// The value that the bar `bounds` gives to a cursor at `cursor_x`: `start`
/// at the left edge and to the left of it, `end` at the right edge and to
/// the right of it, and in between the value interpolated along the bar.
pub open spec fn spec_value_at(bounds: Rectangle, start: i64, end: i64, cursor_x: i64) -> int {
    if cursor_x <= bounds.x {
        start as int
    } else if cursor_x >= bounds.right() {
        end as int
    } else {
        interpolated(start as int, end as int, cursor_x - bounds.x, bounds.width as int)
    }
}

/// An interpolated value lies between `start` and `end`, whichever of the
/// two is the larger.
pub proof fn lemma_interpolated_between(start: int, end: int, offset: int, width: int)
    requires
        0 <= offset <= width,
        0 < width,
    ensures
        start <= end ==> start <= interpolated(start, end, offset, width) <= end,
        end <= start ==> end <= interpolated(start, end, offset, width) <= start,
{
    let span = if end >= start {
        end - start
    } else {
        start - end
    };
    assert(0 <= span * offset <= span * width) by (nonlinear_arith)
        requires
            0 <= span,
            0 <= offset <= width,
    ;
    assert(0 <= (span * offset) / width <= span) by (nonlinear_arith)
        requires
            0 <= span * offset <= span * width,
            0 < width,
    ;
}

/// With `start` not above `end`, interpolation never decreases as the
/// offset grows.
pub proof fn lemma_interpolated_monotonic(start: int, end: int, near: int, far: int, width: int)
    requires
        start <= end,
        0 <= near <= far,
        0 < width,
    ensures
        interpolated(start, end, near, width) <= interpolated(start, end, far, width),
{
    let span = end - start;
    assert(span * near <= span * far) by (nonlinear_arith)
        requires
            0 <= span,
            near <= far,
    ;
    assert((span * near) / width <= (span * far) / width) by (nonlinear_arith)
        requires
            span * near <= span * far,
            0 < width,
    ;
}

/// The value under a cursor lies between the bounds of the range.
pub proof fn lemma_value_between(bounds: Rectangle, start: i64, end: i64, cursor_x: i64)
    ensures
        start <= end ==> start <= spec_value_at(bounds, start, end, cursor_x) <= end,
        end <= start ==> end <= spec_value_at(bounds, start, end, cursor_x) <= start,
{
    if bounds.x < cursor_x < bounds.right() {
        lemma_interpolated_between(
            start as int,
            end as int,
            cursor_x - bounds.x,
            bounds.width as int,
        );
    }
}

/// For a bar and a range with `start` not above `end`, the value never
/// decreases as the cursor moves right; it is `start` at the left edge and
/// to the left of it, and `end` at the right edge and to the right of it,
/// save at a left edge that is the right edge too.
pub proof fn lemma_value_monotonic(bounds: Rectangle, start: i64, end: i64, left: i64, right: i64)
    requires
        start <= end,
        left <= right,
    ensures
        spec_value_at(bounds, start, end, left) <= spec_value_at(bounds, start, end, right),
        start <= spec_value_at(bounds, start, end, left) <= end,
        left <= bounds.x ==> spec_value_at(bounds, start, end, left) == start,
        right >= bounds.right() && right > bounds.x ==> spec_value_at(bounds, start, end, right)
            == end,
{
    let width = bounds.width as int;
    if bounds.x < left < bounds.right() {
        lemma_interpolated_between(start as int, end as int, left - bounds.x, width);
    }
    if bounds.x < right < bounds.right() {
        lemma_interpolated_between(start as int, end as int, right - bounds.x, width);
    }
    if bounds.x < left && right < bounds.right() {
        lemma_interpolated_monotonic(
            start as int,
            end as int,
            left - bounds.x,
            right - bounds.x,
            width,
        );
    }
}

/// Computes the value that the bar `bounds` gives to a cursor at `cursor_x`
/// for the range from `start` to `end`.
pub fn value_at(bounds: Rectangle, start: i64, end: i64, cursor_x: i64) -> (value: i64)
    ensures
        value == spec_value_at(bounds, start, end, cursor_x),
{
    let width = bounds.width as i128;
    if cursor_x <= bounds.x {
        start
    } else if (cursor_x as i128) >= (bounds.x as i128) + width {
        end
    } else {
        let offset: i128 = (cursor_x as i128) - (bounds.x as i128);
        proof {
            lemma_interpolated_between(start as int, end as int, offset as int, width as int);
        }
        if end >= start {
            let span: i128 = (end as i128) - (start as i128);
            assert(0 <= span * offset <= 0x1_0000_0000_0000_0000 * 0x1_0000_0000)
                by (nonlinear_arith)
                requires
                    0 <= span <= 0x1_0000_0000_0000_0000,
                    0 <= offset <= 0x1_0000_0000,
            ;
            ((start as i128) + (span * offset) / width) as i64
        } else {
            let span: i128 = (start as i128) - (end as i128);
            assert(0 <= span * offset <= 0x1_0000_0000_0000_0000 * 0x1_0000_0000)
                by (nonlinear_arith)
                requires
                    0 <= span <= 0x1_0000_0000_0000_0000,
                    0 <= offset <= 0x1_0000_0000,
            ;
            ((start as i128) - (span * offset) / width) as i64
        }
    }
}

/// What a slider does with an event.
#[derive(Debug, Clone, Copy, PartialEq, Eq, Structural)]
pub enum Reaction {
    /// Nothing at all.
    Ignore,
    /// Report the value under the cursor and start dragging.
    Press,
    /// Report the value under the cursor.
    Drag,
    /// Report the release, where a message for it is set, and stop dragging.
    Release,
}

impl Reaction {
    /// Whether the handle is dragged after this reaction, given whether it
    /// was dragged before.
    pub open spec fn dragging_after(self, before: bool) -> bool {
        match self {
            Reaction::Ignore | Reaction::Drag => before,
            Reaction::Press => true,
            Reaction::Release => false,
        }
    }
}

/// The reaction of a slider to `event`, where `inside` says whether the
/// cursor is within the slider's box and `dragging` whether the handle is
/// held. Only the left button and the movement of the cursor count.
pub open spec fn spec_reaction(event: Event, inside: bool, dragging: bool) -> Reaction {
    match event {
        Event::Mouse(mouse::Event::ButtonPressed(mouse::Button::Left)) => if inside {
            Reaction::Press
        } else {
            Reaction::Ignore
        },
        Event::Mouse(mouse::Event::ButtonReleased(mouse::Button::Left)) => if dragging {
            Reaction::Release
        } else {
            Reaction::Ignore
        },
        Event::Mouse(mouse::Event::CursorMoved { .. }) => if dragging {
            Reaction::Drag
        } else {
            Reaction::Ignore
        },
        _ => Reaction::Ignore,
    }
}

/// Decides what a slider does with `event`.
#[verifier::when_used_as_spec(spec_reaction)]
pub fn reaction(event: Event, inside: bool, dragging: bool) -> (reaction: Reaction)
    ensures
        reaction == spec_reaction(event, inside, dragging),
{
    match event {
        Event::Mouse(mouse_event) => match mouse_event {
            mouse::Event::ButtonPressed(mouse::Button::Left) => {
                if inside {
                    Reaction::Press
                } else {
                    Reaction::Ignore
                }
            },
            mouse::Event::ButtonReleased(mouse::Button::Left) => {
                if dragging {
                    Reaction::Release
                } else {
                    Reaction::Ignore
                }
            },
            mouse::Event::CursorMoved { .. } => {
                if dragging {
                    Reaction::Drag
                } else {
                    Reaction::Ignore
                }
            },
            _ => Reaction::Ignore,
        },
        _ => Reaction::Ignore,
    }
}

/// The course of a drag, as [`spec_reaction`] decides it: a press of the
/// left button inside the box starts a drag; while it lasts, every move of
/// the cursor is a drag and leaves it going; a release of the left button
/// ends it; a release without a drag is ignored and starts none.
pub proof fn lemma_drag_lifecycle(dragging: bool, inside: bool, x: i64, y: i64)
    ensures
        ({
            let press = Event::Mouse(mouse::Event::ButtonPressed(mouse::Button::Left));
            let move_to = Event::Mouse(mouse::Event::CursorMoved { x, y });
            let release = Event::Mouse(mouse::Event::ButtonReleased(mouse::Button::Left));
            &&& spec_reaction(press, true, dragging) == Reaction::Press
            &&& Reaction::Press.dragging_after(dragging)
            &&& spec_reaction(move_to, inside, true) == Reaction::Drag
            &&& Reaction::Drag.dragging_after(true)
            &&& spec_reaction(release, inside, true) == Reaction::Release
            &&& !Reaction::Release.dragging_after(true)
            &&& spec_reaction(release, inside, false) == Reaction::Ignore
            &&& !Reaction::Ignore.dragging_after(false)
        }),
{
}

/// The word that marks the layout hash of a slider.
pub const KIND: u64 = 0x0000_736c_6964_6572;

/// The words that a slider of the given width writes about its layout.
pub open spec fn layout_words(width: Length) -> Seq<u64> {
    seq![KIND] + width.words()
}

/// The extent that a slider of the given width takes within `limits`, where
/// sliders are naturally `height` units high: the width follows the
/// slider's policy, the height is the natural one as far as the limits
/// allow.
pub open spec fn layout_size(width: Length, height: u32, limits: LimitsView) -> Size {
    limits.width(width).height(Length::Units(height)).resolve(Size::zero())
}

/// Lays out a slider of the given width within `limits`, where sliders are
/// naturally `height` units high. The node has no children and fits the
/// limits.
pub fn lay_out(width: Length, height: u32, limits: &Limits) -> (node: Node)
    ensures
        node@ == NodeView::leaf(layout_size(width, height, limits@)),
        limits@.admits(node@.size()),
{
    proof {
        use_type_invariant(limits);
    }
    let limits = limits.width(width).height(Length::Units(height));
    let size = limits.resolve(Size::zero());
    Node::new(size)
}

/// Sliders that write the same words about their layout are laid out alike
/// within the same limits by the same renderer.
pub proof fn lemma_same_words_same_layout(
    width: Length,
    other_width: Length,
    height: u32,
    limits: LimitsView,
)
    requires
        layout_words(width) == layout_words(other_width),
    ensures
        width == other_width,
        layout_size(width, height, limits) == layout_size(other_width, height, limits),
{
    assert(width.words() =~= layout_words(width).subrange(1, layout_words(width).len() as int));
    assert(other_width.words() =~= layout_words(other_width).subrange(
        1,
        layout_words(other_width).len() as int,
    ));
    width.lemma_words_tell_apart(other_width);
}

/// What a [`Slider`] stands for.
pub struct SliderView<Message, Style, F> {
    /// The value at the left end of the bar.
    pub range_start: i64,
    /// The value at the right end of the bar.
    pub range_end: i64,
    /// The value that the slider shows.
    pub value: i64,
    /// Whether the handle is being dragged.
    pub is_dragging: bool,
    /// Makes the message that reports a new value.
    pub on_change: F,
    /// The message that reports the end of a drag, if one is set.
    pub on_release: Option<Message>,
    /// The width that the slider asks for.
    pub width: Length,
    /// How the slider looks.
    pub style: Style,
}

impl<Message: Clone, Style, F: Fn(i64) -> Message> SliderView<Message, Style, F> {
    /// Whether `after` is what `reaction` makes of the messages `before`,
    /// for a slider in `bounds` and a cursor at `cursor_x`: a press or a
    /// drag adds the message for the value under the cursor, a release adds
    /// a clone of the release message where one is set, and nothing else is
    /// added or taken away.
    pub open spec fn reports(
        self,
        reaction: Reaction,
        bounds: Rectangle,
        cursor_x: i64,
        before: Seq<Message>,
        after: Seq<Message>,
    ) -> bool {
        match reaction {
            Reaction::Ignore => after == before,
            Reaction::Press | Reaction::Drag => {
                &&& after.len() == before.len() + 1
                &&& after.drop_last() == before
                &&& call_ensures(
                    self.on_change,
                    (spec_value_at(bounds, self.range_start, self.range_end, cursor_x) as i64,),
                    after.last(),
                )
            },
            Reaction::Release => match self.on_release {
                Some(on_release) => {
                    &&& after.len() == before.len() + 1
                    &&& after.drop_last() == before
                    &&& cloned(on_release, after.last())
                },
                None => after == before,
            },
        }
    }
}

/// The messages of a drag: a press and every move of a drag add exactly one
/// message, made by `on_change`; a release adds exactly one, a clone of the
/// release message, where one is set, and none where none is set; what is
/// ignored adds none. The messages that were there stay in front.
pub proof fn lemma_drag_messages<Message: Clone, Style, F: Fn(i64) -> Message>(
    slider: SliderView<Message, Style, F>,
    reaction: Reaction,
    bounds: Rectangle,
    cursor_x: i64,
    before: Seq<Message>,
    after: Seq<Message>,
)
    requires
        slider.reports(reaction, bounds, cursor_x, before, after),
    ensures
        before.is_prefix_of(after),
        reaction == Reaction::Press || reaction == Reaction::Drag ==> after.len() == before.len()
            + 1 && call_ensures(
            slider.on_change,
            (spec_value_at(bounds, slider.range_start, slider.range_end, cursor_x) as i64,),
            after.last(),
        ),
        reaction == Reaction::Release && slider.on_release is Some ==> after.len()
            == before.len() + 1 && cloned(slider.on_release->0, after.last()),
        reaction == Reaction::Release && slider.on_release is None ==> after == before,
        reaction == Reaction::Ignore ==> after == before,
{
    if after.len() == before.len() + 1 {
        assert(after.drop_last() == before);
        assert forall|i: int| 0 <= i < before.len() implies before[i] == after[i] by {
            assert(after.drop_last()[i] == after[i]);
        }
    }
}

/// A horizontal bar with a handle, which selects one value of a range.
///
/// Pressing the left button on the bar or dragging the handle reports the
/// value under the cursor through `on_change`. The slider does not store
/// the value: the application hands it in again with the next frame.
#[verifier::reject_recursive_types(Message)]
#[verifier::reject_recursive_types(Renderer)]
pub struct Slider<'a, Message, Renderer: self::Renderer, F: Fn(i64) -> Message> {
    state: &'a mut State,
    range_start: i64,
    range_end: i64,
    value: i64,
    on_change: F,
    on_release: Option<Message>,
    width: Length,
    style: Renderer::Style,
}

impl<'a, Message, Renderer: self::Renderer, F: Fn(i64) -> Message> View for Slider<
    'a,
    Message,
    Renderer,
    F,
> {
    type V = SliderView<Message, Renderer::Style, F>;

    closed spec fn view(&self) -> Self::V {
        SliderView {
            range_start: self.range_start,
            range_end: self.range_end,
            value: self.value,
            is_dragging: self.state.is_dragging,
            on_change: self.on_change,
            on_release: self.on_release,
            width: self.width,
            style: self.style,
        }
    }
}

impl<'a, Message, Renderer: self::Renderer, F: Fn(i64) -> Message> Slider<
    'a,
    Message,
    Renderer,
    F,
> {
    /// `on_change` can be called with every value between the bounds of
    /// the range.
    #[verifier::type_invariant]
    closed spec fn callable(self) -> bool {
        forall|value: i64|
            between(self.range_start, self.range_end, value) ==> call_requires(
                self.on_change,
                (value,),
            )
    }

    /// The state that the slider has borrowed.
    pub closed spec fn state(&self) -> &'a mut State {
        self.state
    }

    /// Once the slider is let go of, the state that it borrowed is as the
    /// slider left it.
    pub proof fn lemma_state_settled(self)
        requires
            has_resolved(self),
        ensures
            (*final(self.state())).is_dragging() == self@.is_dragging,
    {
    }

    /// Creates a slider over `range` that shows `value` and fills the width
    /// it is given. A `value` outside the range is moved to the nearest
    /// bound; where the range ends below its start, that is its end.
    /// `on_change` makes the message that reports a new value; it must
    /// accept every value between the bounds of the range.
    pub fn new(
        state: &'a mut State,
        range: RangeInclusive<i64>,
        value: i64,
        on_change: F,
    ) -> (slider: Self)
        requires
            forall|value: i64|
                between(range@.start, range@.end, value) ==> call_requires(on_change, (value,)),
        ensures
            slider@.range_start == range@.start,
            slider@.range_end == range@.end,
            slider@.value == clamped(value, range@.start, range@.end),
            range@.start <= range@.end ==> range@.start <= slider@.value <= range@.end,
            slider@.is_dragging == old(state).is_dragging(),
            slider@.on_change == on_change,
            slider@.on_release is None,
            slider@.width == Length::Fill,
            call_ensures(<Renderer::Style as Default>::default, (), slider@.style),
            *final(slider.state()) == *final(state),
    {
        let (range_start, range_end) = range.into_inner();
        let raised = if value >= range_start {
            value
        } else {
            range_start
        };
        let value = if raised <= range_end {
            raised
        } else {
            range_end
        };
        Slider {
            state,
            range_start,
            range_end,
            value,
            on_change,
            on_release: None,
            width: Length::Fill,
            style: Renderer::Style::default(),
        }
    }

    /// Adds to `messages` the message for the value under a cursor at
    /// `cursor_x`.
    fn change(&self, bounds: Rectangle, cursor_x: i64, messages: &mut Vec<Message>)
        ensures
            final(messages)@.len() == old(messages)@.len() + 1,
            final(messages)@.drop_last() == old(messages)@,
            call_ensures(
                self@.on_change,
                (spec_value_at(bounds, self@.range_start, self@.range_end, cursor_x) as i64,),
                final(messages)@.last(),
            ),
    {
        proof {
            use_type_invariant(self);
            lemma_value_between(bounds, self.range_start, self.range_end, cursor_x);
        }
        let value = value_at(bounds, self.range_start, self.range_end, cursor_x);
        assert(between(self.range_start, self.range_end, value));
        let message = (self.on_change)(value);
        messages.push(message);
        assert(messages@.drop_last() =~= old(messages)@);
    }

    /// Sets the message that reports the end of a drag.
    pub fn on_release(self, on_release: Message) -> (slider: Self)
        ensures
            slider@ == (SliderView { on_release: Some(on_release), ..self@ }),
            slider.state() == self.state(),
    {
        proof {
            use_type_invariant(&self);
        }
        let mut slider = self;
        slider.on_release = Some(on_release);
        slider
    }

    /// Sets the width that the slider asks for.
    pub fn width(self, width: Length) -> (slider: Self)
        ensures
            slider@ == (SliderView { width, ..self@ }),
            slider.state() == self.state(),
    {
        proof {
            use_type_invariant(&self);
        }
        let mut slider = self;
        slider.width = width;
        slider
    }

    /// Sets how the slider looks.
    pub fn style<S: Into<Renderer::Style>>(self, style: S) -> (slider: Self)
        ensures
            call_ensures(S::into, (style,), slider@.style),
            slider@ == (SliderView { style: slider@.style, ..self@ }),
            slider.state() == self.state(),
    {
        proof {
            use_type_invariant(&self);
        }
        let mut slider = self;
        slider.style = style.into();
        slider
    }
}

impl<'a, Message, Renderer, F> Widget<Message, Renderer> for Slider<'a, Message, Renderer, F> where
    Renderer: self::Renderer,
    Message: Clone,
    F: Fn(i64) -> Message,
 {
    /// A slider asks for the width it was given.
    open spec fn asks_width(&self, width: Length) -> bool {
        width == self@.width
    }

    /// A slider asks for no more height than it needs.
    open spec fn asks_height(&self, height: Length) -> bool {
        height == Length::Shrink
    }

    /// A slider is laid out to a node without children, of the size that
    /// [`layout_size`] gives for a height that the renderer may report.
    open spec fn lays_out(&self, renderer: &Renderer, limits: LimitsView, node: NodeView) -> bool {
        exists|height: u32| #[trigger]
            renderer.reports_height(height) && node == NodeView::leaf(
                layout_size(self@.width, height, limits),
            )
    }

    /// A slider is drawn by the renderer alone, which gets the box of the
    /// layout, the cursor, the range, the value, the dragging flag and the
    /// style as they stand.
    open spec fn draws(
        &self,
        before: Renderer,
        defaults: Renderer::Defaults,
        layout: LayoutView,
        cursor_position: Point,
        output: Renderer::Output,
        after: Renderer,
    ) -> bool {
        before.draws(
            layout.bounds(),
            cursor_position,
            RangeInclusiveView {
                start: self@.range_start,
                end: self@.range_end,
                exhausted: false,
            },
            self@.value,
            self@.is_dragging,
            self@.style,
            output,
            after,
        )
    }

    /// A slider writes the words of [`layout_words`] for its width, after
    /// what is written already.
    open spec fn writes(&self, before: Seq<u64>, after: Seq<u64>) -> bool {
        after == before + layout_words(self@.width)
    }

    /// A slider reacts as [`reaction`] decides for the box of `layout` and
    /// the cursor, and its messages are those of [`SliderView::reports`].
    /// Renderer and clipboard play no part.
    open spec fn handles(
        &self,
        event: Event,
        layout: LayoutView,
        cursor_position: Point,
        renderer: &Renderer,
        clipboard: Option<&dyn Clipboard>,
        before: Seq<Message>,
        after: Seq<Message>,
    ) -> bool {
        self@.reports(
            reaction(event, layout.bounds().contains(cursor_position), self@.is_dragging),
            layout.bounds(),
            cursor_position.x,
            before,
            after,
        )
    }

    fn width(&self) -> (width: Length)
        ensures
            width == self@.width,
    {
        self.width
    }

    fn height(&self) -> (height: Length)
        ensures
            height == Length::Shrink,
    {
        Length::Shrink
    }

    /// The node is that of [`lay_out`] for a height that the renderer may
    /// report, and it fits the limits.
    fn layout(&self, renderer: &Renderer, limits: &Limits) -> (node: Node)
        ensures
            exists|height: u32| #[trigger]
                renderer.reports_height(height) && node@ == NodeView::leaf(
                    layout_size(self@.width, height, limits@),
                ),
            limits@.admits(node@.size()),
    {
        lay_out(self.width, renderer.height(), limits)
    }

    /// The renderer gets the box of the layout, the cursor, the range, the
    /// value, the dragging flag and the style as they stand. What comes
    /// back is the renderer's alone.
    fn draw(
        &self,
        renderer: &mut Renderer,
        _defaults: &Renderer::Defaults,
        layout: Layout<'_>,
        cursor_position: Point,
    ) -> (output: Renderer::Output)
        ensures
            old(renderer).draws(
                layout@.bounds(),
                cursor_position,
                RangeInclusiveView {
                    start: self@.range_start,
                    end: self@.range_end,
                    exhausted: false,
                },
                self@.value,
                self@.is_dragging,
                self@.style,
                output,
                *final(renderer),
            ),
    {
        renderer.draw(
            layout.bounds(),
            cursor_position,
            RangeInclusive::new(self.range_start, self.range_end),
            self.value,
            self.state.is_dragging,
            &self.style,
        )
    }

    fn hash_layout(&self, state: &mut Hasher)
        ensures
            final(state)@ == old(state)@ + layout_words(self@.width),
    {
        state.write_u64(KIND);
        self.width.hash(state);
        assert(state@ =~= old(state)@ + layout_words(self@.width));
    }

    /// Reacts as [`reaction`] decides, for the box of `layout` and the
    /// cursor at `cursor_position`. The messages are those of
    /// [`SliderView::reports`]. Nothing but the dragging flag changes in the
    /// slider, and the slider keeps the state it has borrowed.
    fn on_event(
        &mut self,
        event: Event,
        layout: Layout<'_>,
        cursor_position: Point,
        messages: &mut Vec<Message>,
        _renderer: &Renderer,
        _clipboard: Option<&dyn Clipboard>,
    )
        ensures
            final(self)@ == (SliderView {
                is_dragging: reaction(
                    event,
                    layout@.bounds().contains(cursor_position),
                    old(self)@.is_dragging,
                ).dragging_after(old(self)@.is_dragging),
                ..old(self)@
            }),
            old(self)@.reports(
                reaction(event, layout@.bounds().contains(cursor_position), old(self)@.is_dragging),
                layout@.bounds(),
                cursor_position.x,
                old(messages)@,
                final(messages)@,
            ),
            *final(final(self).state()) == *final(old(self).state()),
    {
        proof {
            use_type_invariant(&*self);
        }
        let bounds = layout.bounds();
        match reaction(event, bounds.contains(cursor_position), self.state.is_dragging) {
            Reaction::Ignore => {},
            Reaction::Press => {
                self.change(bounds, cursor_position.x, messages);
                self.state.is_dragging = true;
            },
            Reaction::Drag => {
                self.change(bounds, cursor_position.x, messages);
            },
            Reaction::Release => {
                if let Some(on_release) = &self.on_release {
                    let message = on_release.clone();
                    messages.push(message);
                    assert(messages@.drop_last() =~= old(messages)@);
                }
                self.state.is_dragging = false;
            },
        }
    }
}

impl<'a, Message, Renderer, F> From<
    Slider<'a, Message, Renderer, F>,
> for Element<'a, Message, Renderer> where
    Renderer: 'a + self::Renderer,
    Message: 'a + Clone,
    F: 'a + Fn(i64) -> Message,
 {
    fn from(slider: Slider<'a, Message, Renderer, F>) -> (element: Element<'a, Message, Renderer>)
        ensures
            element.stands_for(slider),
    {
        Element::new(slider)
    }
}

/// An element hides the widget it was made of, so no element can be named
/// as the outcome of the conversion; `from` says of the element that it
/// stands for the slider.
impl<'a, Message, Renderer, F> vstd::std_specs::convert::FromSpecImpl<
    Slider<'a, Message, Renderer, F>,
> for Element<'a, Message, Renderer> where
    Renderer: 'a + self::Renderer,
    Message: 'a + Clone,
    F: 'a + Fn(i64) -> Message,
 {
    open spec fn obeys_from_spec() -> bool {
        false
    }

    open spec fn from_spec(slider: Slider<'a, Message, Renderer, F>) -> Self {
        arbitrary()
    }
}

} // verus!
