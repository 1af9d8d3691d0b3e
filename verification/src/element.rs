//! Widgets of any kind behind one type.
use vstd::prelude::*;
use crate::clipboard::Clipboard;
use crate::event::Event;
use crate::hasher::Hasher;
use crate::layout::limits::LimitsView;
use crate::layout::node::NodeView;
use crate::layout::{Layout, LayoutView, Limits, Node};
use crate::length::Length;
use crate::point::Point;
use crate::widget::Widget;

verus! {

/// A widget as an element holds it: it has the outcomes of the widget inside
/// and does what that widget does, operation by operation.
struct Held<W> {
    widget: W,
}

impl<Message, Renderer, W> Widget<Message, Renderer> for Held<W> where
    Renderer: crate::renderer::Renderer,
    W: Widget<Message, Renderer>,
 {
    closed spec fn asks_width(&self, width: Length) -> bool {
        self.widget.asks_width(width)
    }

    closed spec fn asks_height(&self, height: Length) -> bool {
        self.widget.asks_height(height)
    }

    closed spec fn lays_out(
        &self,
        renderer: &Renderer,
        limits: LimitsView,
        node: NodeView,
    ) -> bool {
        self.widget.lays_out(renderer, limits, node)
    }

    closed spec fn draws(
        &self,
        before: Renderer,
        defaults: Renderer::Defaults,
        layout: LayoutView,
        cursor_position: Point,
        output: Renderer::Output,
        after: Renderer,
    ) -> bool {
        self.widget.draws(before, defaults, layout, cursor_position, output, after)
    }

    closed spec fn writes(&self, before: Seq<u64>, after: Seq<u64>) -> bool {
        self.widget.writes(before, after)
    }

    closed spec fn handles(
        &self,
        event: Event,
        layout: LayoutView,
        cursor_position: Point,
        renderer: &Renderer,
        clipboard: Option<&dyn Clipboard>,
        before: Seq<Message>,
        after: Seq<Message>,
    ) -> bool {
        self.widget.handles(event, layout, cursor_position, renderer, clipboard, before, after)
    }

    fn width(&self) -> Length {
        self.widget.width()
    }

    fn height(&self) -> Length {
        self.widget.height()
    }

    fn layout(&self, renderer: &Renderer, limits: &Limits) -> Node {
        self.widget.layout(renderer, limits)
    }

    fn draw(
        &self,
        renderer: &mut Renderer,
        defaults: &Renderer::Defaults,
        layout: Layout<'_>,
        cursor_position: Point,
    ) -> Renderer::Output {
        self.widget.draw(renderer, defaults, layout, cursor_position)
    }

    fn hash_layout(&self, state: &mut Hasher) {
        self.widget.hash_layout(state);
    }

    fn on_event(
        &mut self,
        event: Event,
        layout: Layout<'_>,
        cursor_position: Point,
        messages: &mut Vec<Message>,
        renderer: &Renderer,
        clipboard: Option<&dyn Clipboard>,
    ) {
        self.widget.on_event(event, layout, cursor_position, messages, renderer, clipboard);
    }
}

/// A widget whose kind is no longer known. Composite widgets own their
/// children as elements and reach them through the operations of
/// [`Widget`] alone. Each operation has the outcomes that the widget
/// inside allows.
#[verifier::reject_recursive_types(Message)]
#[verifier::reject_recursive_types(Renderer)]
pub struct Element<'a, Message, Renderer> where Renderer: crate::renderer::Renderer {
    widget: Box<dyn Widget<Message, Renderer> + 'a>,
}

impl<'a, Message, Renderer> Element<'a, Message, Renderer> where
    Renderer: crate::renderer::Renderer,
 {
    /// Whether the widget inside may ask for `width`.
    pub closed spec fn asks_width(&self, width: Length) -> bool {
        self.widget.asks_width(width)
    }

    /// Whether the widget inside may ask for `height`.
    pub closed spec fn asks_height(&self, height: Length) -> bool {
        self.widget.asks_height(height)
    }

    /// Whether `node` may be the outcome of laying the widget inside out
    /// within `limits`.
    pub closed spec fn lays_out(
        &self,
        renderer: &Renderer,
        limits: LimitsView,
        node: NodeView,
    ) -> bool {
        self.widget.lays_out(renderer, limits, node)
    }

    /// Whether drawing the widget inside into `layout` may give `output` and
    /// turn the renderer `before` into `after`.
    pub closed spec fn draws(
        &self,
        before: Renderer,
        defaults: Renderer::Defaults,
        layout: LayoutView,
        cursor_position: Point,
        output: Renderer::Output,
        after: Renderer,
    ) -> bool {
        self.widget.draws(before, defaults, layout, cursor_position, output, after)
    }

    /// Whether the widget inside may leave `after` of the words `before`
    /// when it writes what decides its layout.
    pub closed spec fn writes(&self, before: Seq<u64>, after: Seq<u64>) -> bool {
        self.widget.writes(before, after)
    }

    /// Whether the widget inside may leave `after` of the messages `before`
    /// when it handles `event`.
    pub closed spec fn handles(
        &self,
        event: Event,
        layout: LayoutView,
        cursor_position: Point,
        renderer: &Renderer,
        clipboard: Option<&dyn Clipboard>,
        before: Seq<Message>,
        after: Seq<Message>,
    ) -> bool {
        self.widget.handles(event, layout, cursor_position, renderer, clipboard, before, after)
    }

    /// Whether the element has the outcomes of `widget`, operation by
    /// operation.
    pub open spec fn stands_for<W: Widget<Message, Renderer>>(&self, widget: W) -> bool {
        &&& forall|width: Length| #[trigger] self.asks_width(width) == widget.asks_width(width)
        &&& forall|height: Length| #[trigger]
            self.asks_height(height) == widget.asks_height(height)
        &&& forall|renderer: &Renderer, limits: LimitsView, node: NodeView| #[trigger]
            self.lays_out(renderer, limits, node) == widget.lays_out(renderer, limits, node)
        &&& forall|
            before: Renderer,
            defaults: Renderer::Defaults,
            layout: LayoutView,
            cursor_position: Point,
            output: Renderer::Output,
            after: Renderer,
        | #[trigger]
            self.draws(before, defaults, layout, cursor_position, output, after)
                == widget.draws(before, defaults, layout, cursor_position, output, after)
        &&& forall|before: Seq<u64>, after: Seq<u64>| #[trigger]
            self.writes(before, after) == widget.writes(before, after)
        &&& forall|
            event: Event,
            layout: LayoutView,
            cursor_position: Point,
            renderer: &Renderer,
            clipboard: Option<&dyn Clipboard>,
            before: Seq<Message>,
            after: Seq<Message>,
        | #[trigger]
            self.handles(event, layout, cursor_position, renderer, clipboard, before, after)
                == widget.handles(
                event,
                layout,
                cursor_position,
                renderer,
                clipboard,
                before,
                after,
            )
    }

    /// Wraps `widget`. The element has the outcomes that `widget` has, for
    /// every operation.
    pub fn new(widget: impl Widget<Message, Renderer> + 'a) -> (element: Element<
        'a,
        Message,
        Renderer,
    >)
        ensures
            element.stands_for(widget),
    {
        Element { widget: Box::new(Held { widget }) }
    }

    /// Returns the width that the widget asks for.
    pub fn width(&self) -> (width: Length)
        ensures
            self.asks_width(width),
    {
        self.widget.width()
    }

    /// Returns the height that the widget asks for.
    pub fn height(&self) -> (height: Length)
        ensures
            self.asks_height(height),
    {
        self.widget.height()
    }

    /// Lays the widget out within `limits`.
    pub fn layout(&self, renderer: &Renderer, limits: &Limits) -> (node: Node)
        ensures
            self.lays_out(renderer, limits@, node@),
    {
        self.widget.layout(renderer, limits)
    }

    /// Draws the widget into the boxes of `layout`.
    pub fn draw(
        &self,
        renderer: &mut Renderer,
        defaults: &Renderer::Defaults,
        layout: Layout<'_>,
        cursor_position: Point,
    ) -> (output: Renderer::Output)
        ensures
            self.draws(
                *old(renderer),
                *defaults,
                layout@,
                cursor_position,
                output,
                *final(renderer),
            ),
    {
        self.widget.draw(renderer, defaults, layout, cursor_position)
    }

    /// Writes to `state` what decides the layout of the widget.
    pub fn hash_layout(&self, state: &mut Hasher)
        ensures
            self.writes(old(state)@, final(state)@),
    {
        self.widget.hash_layout(state);
    }

    /// Hands `event` to the widget.
    pub fn on_event(
        &mut self,
        event: Event,
        layout: Layout<'_>,
        cursor_position: Point,
        messages: &mut Vec<Message>,
        renderer: &Renderer,
        clipboard: Option<&dyn Clipboard>,
    )
        ensures
            old(self).handles(
                event,
                layout@,
                cursor_position,
                renderer,
                clipboard,
                old(messages)@,
                final(messages)@,
            ),
    {
        self.widget.on_event(event, layout, cursor_position, messages, renderer, clipboard);
    }
}

} // verus!
