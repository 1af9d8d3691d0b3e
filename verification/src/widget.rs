//! What makes a widget, and the widgets of this crate.
pub mod container;
pub mod pane_grid;
pub mod slider;

use vstd::prelude::*;
use crate::clipboard::Clipboard;
use crate::event::Event;
use crate::hasher::Hasher;
use crate::layout::limits::LimitsView;
use crate::layout::node::NodeView;
use crate::layout::{Layout, LayoutView, Limits, Node};
use crate::length::Length;
use crate::point::Point;

verus! {

/// A piece of a user interface: it negotiates its size, draws itself through
/// a renderer, and reacts to events by producing messages.
///
/// The tree passed to `draw` and `on_event` has to come from `layout` of the
/// same widget, so that its children are those that the widget made.
///
/// Beside each operation stands a predicate that says which outcomes the
/// operation may have. A widget that is verified defines the predicate and
/// is held to it; by default the predicate leaves every outcome open, and
/// then nothing is known of the operation.
pub trait Widget<Message, Renderer> where Renderer: crate::renderer::Renderer {
    /// Whether the widget may ask for `width`.
    open spec fn asks_width(&self, width: Length) -> bool {
        true
    }

    /// Whether the widget may ask for `height`.
    open spec fn asks_height(&self, height: Length) -> bool {
        true
    }

    /// Whether `node` may be the outcome of laying the widget out within
    /// `limits`.
    open spec fn lays_out(&self, renderer: &Renderer, limits: LimitsView, node: NodeView) -> bool {
        true
    }

    /// Whether drawing the widget into `layout` may give `output` and turn
    /// the renderer `before` into `after`.
    open spec fn draws(
        &self,
        before: Renderer,
        defaults: Renderer::Defaults,
        layout: LayoutView,
        cursor_position: Point,
        output: Renderer::Output,
        after: Renderer,
    ) -> bool {
        true
    }

    /// Whether the widget may leave `after` of the words `before` when it
    /// writes what decides its layout.
    open spec fn writes(&self, before: Seq<u64>, after: Seq<u64>) -> bool {
        true
    }

    /// Whether the widget may leave `after` of the messages `before` when it
    /// handles `event`.
    open spec fn handles(
        &self,
        event: Event,
        layout: LayoutView,
        cursor_position: Point,
        renderer: &Renderer,
        clipboard: Option<&dyn Clipboard>,
        before: Seq<Message>,
        after: Seq<Message>,
    ) -> bool {
        true
    }

    /// Returns the width that the widget asks for.
    fn width(&self) -> (width: Length)
        ensures
            self.asks_width(width),
    ;

    /// Returns the height that the widget asks for.
    fn height(&self) -> (height: Length)
        ensures
            self.asks_height(height),
    ;

    /// Lays the widget out within `limits`.
    fn layout(&self, renderer: &Renderer, limits: &Limits) -> (node: Node)
        ensures
            self.lays_out(renderer, limits@, node@),
    ;

    /// Draws the widget into the boxes of `layout`.
    fn draw(
        &self,
        renderer: &mut Renderer,
        defaults: &Renderer::Defaults,
        layout: Layout<'_>,
        cursor_position: Point,
    ) -> (output: Renderer::Output)
        ensures
            self.draws(
                *old(renderer),
                *defaults,
                layout@,
                cursor_position,
                output,
                *final(renderer),
            ),
    ;

    /// Writes to `state` what decides the layout of the widget: two widgets
    /// of one kind that write the same words are laid out alike.
    fn hash_layout(&self, state: &mut Hasher)
        ensures
            self.writes(old(state)@, final(state)@),
    ;

    /// Handles `event`. Messages for the application go to the end of
    /// `messages`.
    fn on_event(
        &mut self,
        event: Event,
        layout: Layout<'_>,
        cursor_position: Point,
        messages: &mut Vec<Message>,
        renderer: &Renderer,
        clipboard: Option<&dyn Clipboard>,
    )
        ensures
            old(self).handles(
                event,
                layout@,
                cursor_position,
                renderer,
                clipboard,
                old(messages)@,
                final(messages)@,
            ),
    ;
}

} // verus!
