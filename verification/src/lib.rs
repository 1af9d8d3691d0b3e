//! Layout negotiation, hit-testing and event dispatch for composite widgets.
//!
//! A widget is rebuilt every frame from the application's model. It is laid
//! out under a box constraint ([`layout::Limits`]) into a tree of positioned
//! boxes ([`layout::Node`]), and later receives input events together with
//! that same tree ([`Layout`]). Two widgets are provided: a draggable
//! [`Slider`] and the [`TitleBar`] of a pane, which owns a title and an
//! optional strip of controls.
//!
//! Every length, coordinate and slider value is a whole number of units; an
//! embedding decides how many units make up a pixel. Sizes stop growing at
//! `u32::MAX` and absolute coordinates at the limits of `i64`.
//!
//! Widgets and renderers are traits for applications to implement. Beside
//! each of their operations stands a predicate over the outcomes that the
//! operation may have, and the contracts of this crate say in those
//! predicates what is handed to a child or to the renderer. An
//! implementation that is not verified leaves the predicates at their
//! default, which allows every outcome.
pub mod clipboard;
pub mod element;
pub mod event;
pub mod hasher;
pub mod keyboard;
pub mod layout;
pub mod length;
pub mod mouse;
pub mod point;
pub mod rectangle;
pub mod renderer;
pub mod size;
pub mod widget;
pub mod window;

pub use clipboard::Clipboard;
pub use element::Element;
pub use event::Event;
pub use hasher::Hasher;
pub use layout::Layout;
pub use length::Length;
pub use point::Point;
pub use rectangle::Rectangle;
pub use renderer::Renderer;
pub use size::Size;
pub use widget::container;
pub use widget::pane_grid;
pub use widget::pane_grid::TitleBar;
pub use widget::slider;
pub use widget::slider::Slider;
pub use widget::Widget;
