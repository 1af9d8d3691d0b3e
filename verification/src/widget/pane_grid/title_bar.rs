//! The bar at the top of a pane.
use vstd::prelude::*;
use crate::clipboard::Clipboard;
use crate::element::Element;
use crate::event::Event;
use crate::layout::limits::{larger, LimitsView};
use crate::layout::node::{views, NodeView};
use crate::layout::{Layout, LayoutView, Limits, Node};
use crate::point::Point;
use crate::size::{padded_extent, Size};
use crate::widget::container;
use crate::widget::pane_grid;

verus! {

/// The limits that the controls of a bar are laid out in: anything up to
/// the space that is left within `limits` once `padding` is taken off.
pub open spec fn spec_controls_limits(padding: u16, limits: LimitsView) -> LimitsView {
    LimitsView::new(Size::zero(), limits.pad(padding).max)
}

/// The width that is left of the controls of a bar, which are `controls`
/// wide. It is negative where the controls are wider than the bar.
pub open spec fn space_before_controls(padding: u16, limits: LimitsView, controls: u32) -> int {
    limits.pad(padding).max.width - controls
}

/// The limits that the title of a bar is laid out in. Without controls
/// these are `limits` with `padding` taken off. Beside controls of the
/// size `controls`, the title gets anything up to the width that is left
/// of them, and no width at all where they are wider than the bar.
pub open spec fn spec_title_limits(
    padding: u16,
    limits: LimitsView,
    controls: Option<Size>,
) -> LimitsView {
    match controls {
        Some(controls) => {
            let space = space_before_controls(padding, limits, controls.width);
            LimitsView::new(
                Size::zero(),
                Size {
                    width: if space >= 0 {
                        space as u32
                    } else {
                        0
                    },
                    height: limits.pad(padding).max.height,
                },
            )
        },
        None => limits.pad(padding),
    }
}

/// The box inside the padding of a bar. Without controls it is the title's
/// own. With controls it is as wide as the space within the padded limits
/// and as high as the higher of the two; the title sits at its left, the
/// controls end at its right, both moved in by `padding`.
pub open spec fn spec_content(
    padding: u16,
    limits: LimitsView,
    title: NodeView,
    controls: Option<NodeView>,
) -> NodeView {
    match controls {
        Some(controls) => {
            let max = limits.pad(padding).max;
            let space = space_before_controls(padding, limits, controls.size().width);
            NodeView::with_children(
                Size {
                    width: max.width,
                    height: larger(title.size().height, controls.size().height),
                },
                seq![
                    title.moved_to(Point { x: padding as i64, y: padding as i64 }),
                    controls.moved_to(Point { x: (space + padding) as i64, y: padding as i64 }),
                ],
            )
        },
        None => title,
    }
}

/// The node of a bar: the content grown by `padding` on all sides, around
/// the content as its only child.
pub open spec fn spec_compose(
    padding: u16,
    limits: LimitsView,
    title: NodeView,
    controls: Option<NodeView>,
) -> NodeView {
    let content = spec_content(padding, limits, title, controls);
    NodeView::with_children(content.size().pad(padding), seq![content])
}

/// The size of a tree, where there is a tree.
pub open spec fn node_size(node: Option<NodeView>) -> Option<Size> {
    match node {
        Some(node) => Some(node.size()),
        None => None,
    }
}

/// The tree that a node stands for, where there is a node.
pub open spec fn node_view(node: Option<Node>) -> Option<NodeView> {
    match node {
        Some(node) => Some(node@),
        None => None,
    }
}

/// Returns the limits to lay the controls of a bar out in.
pub fn controls_limits(padding: u16, limits: &Limits) -> (inner: Limits)
    ensures
        inner@ == spec_controls_limits(padding, limits@),
{
    Limits::new(Size::zero(), limits.pad(padding).max())
}

/// Returns the limits to lay the title of a bar out in, beside controls of
/// the given size or without any.
pub fn title_limits(padding: u16, limits: &Limits, controls: Option<Size>) -> (inner: Limits)
    ensures
        inner@ == spec_title_limits(padding, limits@, controls),
{
    let padded = limits.pad(padding);
    match controls {
        Some(controls) => {
            let max = padded.max();
            Limits::new(
                Size::zero(),
                Size::new(max.width.saturating_sub(controls.width), max.height),
            )
        },
        None => padded,
    }
}

/// Puts the node of a bar together from the nodes that its title and its
/// controls were laid out to.
pub fn compose(padding: u16, limits: &Limits, title: Node, controls: Option<Node>) -> (node: Node)
    ensures
        node@ == spec_compose(padding, limits@, title@, node_view(controls)),
{
    let content = match controls {
        Some(controls) => {
            let max = limits.pad(padding).max();
            let controls_size = controls.size();
            let space: i64 = (max.width as i64) - (controls_size.width as i64);
            let mut title = title;
            let mut controls = controls;
            title.move_to(Point::new(padding as i64, padding as i64));
            controls.move_to(Point::new(space + (padding as i64), padding as i64));
            let height = if title.size().height >= controls_size.height {
                title.size().height
            } else {
                controls_size.height
            };
            let children = vec![title, controls];
            assert(views(children@) =~= seq![title@, controls@]);
            Node::with_children(Size::new(max.width, height), children)
        },
        None => title,
    };
    let size = content.size().pad(padding);
    let children = vec![content];
    assert(views(children@) =~= seq![content@]);
    Node::with_children(size, children)
}

/// In a bar with controls, the content is as wide as the bar less twice
/// the padding and as high as the higher of title and controls, which keep
/// their sizes. The bar is as high as the content and twice the padding,
/// as far as that sum is a height at all; beyond `u32::MAX` it stays
/// there. Where the controls fit into the content, the width offered to
/// the title and the width of the controls make up the width of the
/// content; so do the widths of title and controls where the title takes
/// all that it is offered.
pub proof fn lemma_layout_composition(
    padding: u16,
    limits: LimitsView,
    title: NodeView,
    controls: NodeView,
)
    ensures
        ({
            let bar = spec_compose(padding, limits, title, Some(controls));
            let content = bar.children[0];
            let offered = spec_title_limits(padding, limits, Some(controls.size())).max.width;
            &&& bar.children.len() == 1
            &&& content.size().width == bar.size().width - 2 * padding
            &&& content.size().height == larger(title.size().height, controls.size().height)
            &&& bar.size().height == padded_extent(content.size().height, padding)
            &&& content.size().height + 2 * padding <= u32::MAX ==> bar.size().height
                == content.size().height + 2 * padding
            &&& content.children.len() == 2
            &&& content.children[0].size() == title.size()
            &&& content.children[1].size() == controls.size()
            &&& controls.size().width <= content.size().width ==> offered + controls.size().width
                == content.size().width
            &&& controls.size().width <= content.size().width && title.size().width == offered
                ==> title.size().width + controls.size().width == content.size().width
        }),
{
}

/// What a [`TitleBar`] stands for.
#[verifier::reject_recursive_types(Message)]
#[verifier::reject_recursive_types(Renderer)]
pub struct TitleBarView<'a, Message, Renderer: container::Renderer> {
    /// The title, at the left of the bar.
    pub title: Element<'a, Message, Renderer>,
    /// The controls at the right of the bar, if there are any.
    pub controls: Option<Element<'a, Message, Renderer>>,
    /// The space kept free on all four sides.
    pub padding: u16,
    /// How the bar looks.
    pub style: Renderer::Style,
}

/// The bar at the top of a pane: a title, and to its right controls such as
/// buttons. A pane is dragged by its bar, but not by the controls in it.
#[verifier::reject_recursive_types(Message)]
#[verifier::reject_recursive_types(Renderer)]
pub struct TitleBar<'a, Message, Renderer: container::Renderer> {
    title: Element<'a, Message, Renderer>,
    controls: Option<Element<'a, Message, Renderer>>,
    padding: u16,
    style: Renderer::Style,
}

impl<'a, Message, Renderer: container::Renderer> View for TitleBar<'a, Message, Renderer> {
    type V = TitleBarView<'a, Message, Renderer>;

    closed spec fn view(&self) -> Self::V {
        TitleBarView {
            title: self.title,
            controls: self.controls,
            padding: self.padding,
            style: self.style,
        }
    }
}

impl<'a, Message, Renderer> TitleBar<'a, Message, Renderer> where Renderer: container::Renderer {
    /// Creates a bar that shows `title`, without controls and without
    /// padding.
    pub fn new<T: Into<Element<'a, Message, Renderer>>>(title: T) -> (bar: Self)
        ensures
            call_ensures(T::into, (title,), bar@.title),
            bar@.controls is None,
            bar@.padding == 0,
            call_ensures(<Renderer::Style as Default>::default, (), bar@.style),
    {
        TitleBar {
            title: title.into(),
            controls: None,
            padding: 0,
            style: Renderer::Style::default(),
        }
    }

    /// Sets the controls of the bar.
    pub fn controls<C: Into<Element<'a, Message, Renderer>>>(self, controls: C) -> (bar: Self)
        ensures
            bar@.controls is Some,
            call_ensures(C::into, (controls,), bar@.controls->0),
            bar@ == (TitleBarView { controls: bar@.controls, ..self@ }),
    {
        let mut bar = self;
        bar.controls = Some(controls.into());
        bar
    }

    /// Sets the space kept free on all four sides of the bar.
    pub fn padding(self, units: u16) -> (bar: Self)
        ensures
            bar@ == (TitleBarView { padding: units, ..self@ }),
    {
        let mut bar = self;
        bar.padding = units;
        bar
    }

    /// Sets how the bar looks.
    pub fn style<S: Into<Renderer::Style>>(self, style: S) -> (bar: Self)
        ensures
            call_ensures(S::into, (style,), bar@.style),
            bar@ == (TitleBarView { style: bar@.style, ..self@ }),
    {
        let mut bar = self;
        bar.style = style.into();
        bar
    }
}

impl<'a, Message, Renderer: container::Renderer> TitleBarView<'a, Message, Renderer> {
    /// Whether `layout` has the shape of a tree that the bar laid out: one
    /// child, the content; and in a bar with controls two children of the
    /// content, the title and then the controls.
    pub open spec fn accepts(self, layout: LayoutView) -> bool {
        &&& layout.node.children.len() >= 1
        &&& self.controls is Some ==> layout.child(0).node.children.len() >= 2
    }

    /// The layout of the title within the layout of the bar.
    pub open spec fn title_layout(self, layout: LayoutView) -> LayoutView {
        if self.controls is Some {
            layout.child(0).child(0)
        } else {
            layout.child(0)
        }
    }

    /// The layout of the controls within the layout of a bar that has
    /// some.
    pub open spec fn controls_layout(self, layout: LayoutView) -> LayoutView {
        layout.child(0).child(1)
    }

    /// Whether `title` and `controls` may be what the children of the bar
    /// are laid out to within `limits`: the controls in
    /// [`spec_controls_limits`], the title in [`spec_title_limits`] for the
    /// size of the controls.
    pub open spec fn lays_out_children(
        self,
        renderer: &Renderer,
        limits: LimitsView,
        title: NodeView,
        controls: Option<NodeView>,
    ) -> bool {
        &&& match (self.controls, controls) {
            (Some(element), Some(node)) => element.lays_out(
                renderer,
                spec_controls_limits(self.padding, limits),
                node,
            ),
            (None, None) => true,
            _ => false,
        }
        &&& self.title.lays_out(
            renderer,
            spec_title_limits(self.padding, limits, node_size(controls)),
            title,
        )
    }

    /// Whether a press at `cursor_position` may start to drag the pane: it
    /// has to be in the box of the bar and, where the bar has controls,
    /// outside the box of the controls.
    pub open spec fn draggable_at(self, layout: LayoutView, cursor_position: Point) -> bool {
        &&& layout.bounds().contains(cursor_position)
        &&& !(self.controls is Some && self.controls_layout(layout).bounds().contains(
            cursor_position,
        ))
    }
}

impl<'a, Message, Renderer> TitleBar<'a, Message, Renderer> where Renderer: pane_grid::Renderer {
    /// Draws the bar through `renderer`, which gets the box of the bar, the
    /// style, the title of the bar with its layout, and the controls of the
    /// bar with theirs where the bar has some and `show_controls` asks for
    /// them. What comes back is the renderer's alone.
    pub fn draw(
        &self,
        renderer: &mut Renderer,
        defaults: &Renderer::Defaults,
        layout: Layout<'_>,
        cursor_position: Point,
        show_controls: bool,
    ) -> (output: Renderer::Output)
        requires
            self@.accepts(layout@),
        ensures
            old(renderer).draws_title_bar(
                *defaults,
                layout@.bounds(),
                self@.style,
                (self@.title, self@.title_layout(layout@)),
                if self@.controls is Some && show_controls {
                    Some((self@.controls->0, self@.controls_layout(layout@)))
                } else {
                    None
                },
                cursor_position,
                output,
                *final(renderer),
            ),
    {
        let padded = layout.child(0);
        if let Some(controls) = &self.controls {
            let title_layout = padded.child(0);
            let controls_layout = padded.child(1);
            renderer.draw_title_bar(
                defaults,
                layout.bounds(),
                &self.style,
                (&self.title, title_layout),
                if show_controls {
                    Some((controls, controls_layout))
                } else {
                    None
                },
                cursor_position,
            )
        } else {
            renderer.draw_title_bar(
                defaults,
                layout.bounds(),
                &self.style,
                (&self.title, padded),
                None,
                cursor_position,
            )
        }
    }

    /// Tells whether a press at `cursor_position` may start to drag the
    /// pane: within the bar, but not on its controls.
    pub fn is_over_draggable(
        &self,
        layout: Layout<'_>,
        cursor_position: Point,
    ) -> (draggable: bool)
        requires
            layout@.bounds().contains(cursor_position) ==> self@.accepts(layout@),
        ensures
            draggable == self@.draggable_at(layout@, cursor_position),
            !layout@.bounds().contains(cursor_position) ==> !draggable,
            self@.controls is Some && self@.controls_layout(layout@).bounds().contains(
                cursor_position,
            ) ==> !draggable,
    {
        if layout.bounds().contains(cursor_position) {
            let padded = layout.child(0);
            if self.controls.is_some() {
                let controls_layout = padded.child(1);
                !controls_layout.bounds().contains(cursor_position)
            } else {
                true
            }
        } else {
            false
        }
    }

    /// Lays the bar out within `limits`: the controls first, in
    /// [`controls_limits`]; then the title, in [`title_limits`] for the size
    /// that the controls took; then the two are put together by
    /// [`compose`]. The nodes of title and controls are their own affair.
    /// The tree that comes out is one that the bar accepts in the later
    /// passes.
    pub fn layout(&self, renderer: &Renderer, limits: &Limits) -> (node: Node)
        ensures
            exists|title: NodeView, controls: Option<NodeView>|
                {
                    &&& self@.lays_out_children(renderer, limits@, title, controls)
                    &&& node@ == #[trigger] spec_compose(self@.padding, limits@, title, controls)
                },
            self@.accepts(LayoutView::root(node@)),
    {
        let controls = match &self.controls {
            Some(controls) => Some(
                controls.layout(renderer, &controls_limits(self.padding, limits)),
            ),
            None => None,
        };
        let controls_size = match &controls {
            Some(controls) => Some(controls.size()),
            None => None,
        };
        let title = self.title.layout(
            renderer,
            &title_limits(self.padding, limits, controls_size),
        );
        let ghost title_view = title@;
        let ghost controls_view = node_view(controls);
        let node = compose(self.padding, limits, title, controls);
        assert(node@ == spec_compose(self@.padding, limits@, title_view, controls_view));
        node
    }

    /// Hands `event` to the controls, with their layout; the messages are
    /// what the controls make of them. A bar without controls does nothing.
    /// The title gets no events and stays as it is.
    pub fn on_event(
        &mut self,
        event: Event,
        layout: Layout<'_>,
        cursor_position: Point,
        messages: &mut Vec<Message>,
        renderer: &Renderer,
        clipboard: Option<&dyn Clipboard>,
    )
        requires
            old(self)@.controls is Some ==> old(self)@.accepts(layout@),
        ensures
            old(self)@.controls is None ==> final(messages)@ == old(messages)@ && final(self)@
                == old(self)@,
            old(self)@.controls matches Some(controls) ==> controls.handles(
                event,
                old(self)@.controls_layout(layout@),
                cursor_position,
                renderer,
                clipboard,
                old(messages)@,
                final(messages)@,
            ),
            final(self)@.controls is Some <==> old(self)@.controls is Some,
            final(self)@ == (TitleBarView { controls: final(self)@.controls, ..old(self)@ }),
    {
        if let Some(controls) = &mut self.controls {
            let controls_layout = layout.child(0).child(1);
            controls.on_event(
                event,
                controls_layout,
                cursor_position,
                messages,
                renderer,
                clipboard,
            );
        }
    }
}

} // verus!
