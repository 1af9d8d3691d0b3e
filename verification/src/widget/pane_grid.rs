//! Panes that share a region, each under a bar of its own.
pub mod title_bar;

pub use title_bar::TitleBar;

use vstd::prelude::*;
use crate::element::Element;
use crate::layout::{Layout, LayoutView};
use crate::point::Point;
use crate::rectangle::Rectangle;
use crate::widget::container;

verus! {

/// What a renderer provides to show the parts of a pane.
///
/// Beside the operation stands a predicate that says which outcomes it may
/// have, given the elements and their layouts. By default it leaves every
/// outcome open. A renderer that is verified and judges by the layouts
/// alone defines [`Renderer::draws_title_bar_into`] and is held to it.
pub trait Renderer: crate::renderer::Renderer + container::Renderer {
    /// Whether drawing a title bar may produce `output` and leave the
    /// renderer as `after`, where the title is drawn into the layout
    /// `title` and the controls, if they are drawn, into `controls`. This
    /// is the part of [`Renderer::draws_title_bar`] that does not look at
    /// the elements.
    open spec fn draws_title_bar_into(
        &self,
        defaults: Self::Defaults,
        bounds: Rectangle,
        style: Self::Style,
        title: LayoutView,
        controls: Option<LayoutView>,
        cursor_position: Point,
        output: Self::Output,
        after: Self,
    ) -> bool {
        true
    }

    /// Whether drawing a title bar may produce `output` and leave the
    /// renderer as `after`, where `title` is the title with the layout to
    /// draw it in and `controls`, if they are drawn, the controls with
    /// theirs. By default this is what [`Renderer::draws_title_bar_into`]
    /// says of the two layouts.
    open spec fn draws_title_bar<'a, Message>(
        &self,
        defaults: Self::Defaults,
        bounds: Rectangle,
        style: Self::Style,
        title: (Element<'a, Message, Self>, LayoutView),
        controls: Option<(Element<'a, Message, Self>, LayoutView)>,
        cursor_position: Point,
        output: Self::Output,
        after: Self,
    ) -> bool {
        self.draws_title_bar_into(
            defaults,
            bounds,
            style,
            title.1,
            match controls {
                Some((_, layout)) => Some(layout),
                None => None,
            },
            cursor_position,
            output,
            after,
        )
    }

    /// Draws a title bar in `bounds`: its title, and its controls where a
    /// pair is given for them. Each element comes with the layout to draw it
    /// in.
    fn draw_title_bar<Message>(
        &mut self,
        defaults: &Self::Defaults,
        bounds: Rectangle,
        style: &Self::Style,
        title: (&Element<'_, Message, Self>, Layout<'_>),
        controls: Option<(&Element<'_, Message, Self>, Layout<'_>)>,
        cursor_position: Point,
    ) -> (output: Self::Output)
        ensures
            old(self).draws_title_bar(
                *defaults,
                bounds,
                *style,
                (*title.0, title.1@),
                match controls {
                    Some((element, layout)) => Some((*element, layout@)),
                    None => None,
                },
                cursor_position,
                output,
                *final(self),
            ),
    ;
}

} // verus!
