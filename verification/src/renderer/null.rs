//! A renderer that draws nothing.
use std::ops::RangeInclusive;
use vstd::prelude::*;
use crate::element::Element;
use crate::layout::Layout;
use crate::point::Point;
use crate::rectangle::Rectangle;
use crate::widget::container;
use crate::widget::pane_grid;
use crate::widget::slider;

verus! {

/// The height that [`Null`] gives to every slider.
pub const SLIDER_HEIGHT: u32 = 30;

/// A renderer that draws nothing and keeps nothing. It serves where widgets
/// are laid out and sent events but never shown.
#[derive(Debug, Clone, Copy, PartialEq, Eq, Structural)]
pub struct Null;

impl Null {
    /// Creates the renderer.
    pub fn new() -> (renderer: Null)
        ensures
            renderer == Null,
    {
        Null
    }
}

impl crate::renderer::Renderer for Null {
    type Output = ();

    type Defaults = ();
}

impl slider::Renderer for Null {
    type Style = ();

    /// Every slider is [`SLIDER_HEIGHT`] high.
    open spec fn reports_height(&self, height: u32) -> bool {
        height == SLIDER_HEIGHT
    }

    fn height(&self) -> u32 {
        SLIDER_HEIGHT
    }

    fn draw(
        &mut self,
        _bounds: Rectangle,
        _cursor_position: Point,
        _range: RangeInclusive<i64>,
        _value: i64,
        _is_dragging: bool,
        _style: &(),
    ) {
    }
}

impl container::Renderer for Null {
    type Style = ();
}

impl pane_grid::Renderer for Null {
    fn draw_title_bar<Message>(
        &mut self,
        _defaults: &(),
        _bounds: Rectangle,
        _style: &(),
        _title: (&Element<'_, Message, Self>, Layout<'_>),
        _controls: Option<(&Element<'_, Message, Self>, Layout<'_>)>,
        _cursor_position: Point,
    ) {
    }
}

} // verus!
