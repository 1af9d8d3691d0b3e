use std::ops::RangeInclusive;

use widget_core::keyboard;
use widget_core::layout::{Limits, Node};
use widget_core::renderer::null::SLIDER_HEIGHT;
use widget_core::renderer::Null;
use widget_core::mouse;
use widget_core::widget::slider::{self, lay_out, reaction, value_at, Reaction, Slider, State};
use widget_core::{Element, Event, Hasher, Layout, Length, Point, Rectangle, Size, Widget};

#[derive(Debug, Clone, PartialEq)]
enum Message {
    Changed(i64),
    Released,
}

#[derive(Debug, PartialEq)]
struct Drawn {
    bounds: Rectangle,
    cursor_position: Point,
    range: RangeInclusive<i64>,
    value: i64,
    is_dragging: bool,
}

struct Recorder {
    height: u32,
    drawn: Vec<Drawn>,
}

impl Recorder {
    fn new(height: u32) -> Recorder {
        Recorder { height, drawn: Vec::new() }
    }
}

impl widget_core::Renderer for Recorder {
    type Output = usize;
    type Defaults = ();
}

impl slider::Renderer for Recorder {
    type Style = u8;

    fn height(&self) -> u32 {
        self.height
    }

    fn draw(
        &mut self,
        bounds: Rectangle,
        cursor_position: Point,
        range: RangeInclusive<i64>,
        value: i64,
        is_dragging: bool,
        _style: &u8,
    ) -> usize {
        self.drawn.push(Drawn { bounds, cursor_position, range, value, is_dragging });
        self.drawn.len()
    }
}

fn bar(x: i64, width: u32) -> Node {
    let mut node = Node::new(Size::new(width, 20));
    node.move_to(Point::new(x, 0));
    node
}

fn press() -> Event {
    Event::Mouse(mouse::Event::ButtonPressed(mouse::Button::Left))
}

fn release() -> Event {
    Event::Mouse(mouse::Event::ButtonReleased(mouse::Button::Left))
}

fn moved(x: i64) -> Event {
    Event::Mouse(mouse::Event::CursorMoved { x, y: 10 })
}

fn send(
    state: &mut State,
    range: RangeInclusive<i64>,
    on_release: bool,
    node: &Node,
    event: Event,
    cursor: Point,
    messages: &mut Vec<Message>,
) {
    let slider: Slider<'_, Message, Recorder, _> =
        Slider::new(state, range, 0, Message::Changed);
    let mut slider = if on_release { slider.on_release(Message::Released) } else { slider };
    slider.on_event(event, Layout::new(node), cursor, messages, &Recorder::new(20), None);
}

#[test]
fn state_starts_idle() {
    assert!(!State::new().is_dragging());
    assert!(!State::default().is_dragging());
    assert_eq!(State::new(), State::default());
}

#[test]
fn value_is_interpolated_along_the_bar() {
    let bounds = Rectangle { x: 0, y: 0, width: 200, height: 20 };
    assert_eq!(value_at(bounds, 0, 100, 50), 25);
    assert_eq!(value_at(bounds, 0, 100, 100), 50);
    assert_eq!(value_at(bounds, 0, 100, 199), 99);
    assert_eq!(value_at(bounds, 0, 100, 1), 0);
    assert_eq!(value_at(bounds, 10, 20, 150), 17);
    assert_eq!(value_at(bounds, -100, 100, 50), -50);
}

#[test]
fn value_is_the_bound_at_and_beyond_an_edge() {
    let bounds = Rectangle { x: 40, y: 0, width: 200, height: 20 };
    assert_eq!(value_at(bounds, 3, 9, 40), 3);
    assert_eq!(value_at(bounds, 3, 9, 39), 3);
    assert_eq!(value_at(bounds, 3, 9, i64::MIN), 3);
    assert_eq!(value_at(bounds, 3, 9, 240), 9);
    assert_eq!(value_at(bounds, 3, 9, 241), 9);
    assert_eq!(value_at(bounds, 3, 9, i64::MAX), 9);
}

#[test]
fn value_on_a_bar_without_width() {
    let bounds = Rectangle { x: 7, y: 0, width: 0, height: 20 };
    assert_eq!(value_at(bounds, 1, 5, 6), 1);
    assert_eq!(value_at(bounds, 1, 5, 7), 1);
    assert_eq!(value_at(bounds, 1, 5, 8), 5);
}

#[test]
fn value_of_an_inverted_range_runs_downwards() {
    let bounds = Rectangle { x: 0, y: 0, width: 200, height: 20 };
    assert_eq!(value_at(bounds, 100, 0, 0), 100);
    assert_eq!(value_at(bounds, 100, 0, 50), 75);
    assert_eq!(value_at(bounds, 100, 0, 199), 1);
    assert_eq!(value_at(bounds, 100, 0, 200), 0);
    assert_eq!(value_at(bounds, 10, 0, 1), 10);
}

#[test]
fn value_at_the_limits_of_the_numbers() {
    let bounds = Rectangle { x: i64::MAX - 10, y: 0, width: u32::MAX, height: 1 };
    assert_eq!(value_at(bounds, i64::MIN, i64::MAX, i64::MAX), i64::MIN + 42_949_672_970);
    let wide = Rectangle { x: 0, y: 0, width: u32::MAX, height: 1 };
    assert_eq!(value_at(wide, i64::MIN, i64::MAX, 4_294_967_294), 9_223_372_032_559_808_510);
    assert_eq!(value_at(wide, i64::MAX, i64::MIN, 4_294_967_294), -9_223_372_032_559_808_511);
}

#[test]
fn value_never_decreases_to_the_right() {
    let bounds = Rectangle { x: -30, y: 0, width: 77, height: 20 };
    let mut last = value_at(bounds, -5, 13, -40);
    assert_eq!(last, -5);
    for x in -40..60 {
        let value = value_at(bounds, -5, 13, x);
        assert!(value >= last);
        assert!((-5..=13).contains(&value));
        last = value;
    }
    assert_eq!(last, 13);
}

#[test]
fn reaction_follows_the_table() {
    assert_eq!(reaction(press(), true, false), Reaction::Press);
    assert_eq!(reaction(press(), true, true), Reaction::Press);
    assert_eq!(reaction(press(), false, false), Reaction::Ignore);
    assert_eq!(reaction(press(), false, true), Reaction::Ignore);
    assert_eq!(reaction(moved(3), false, true), Reaction::Drag);
    assert_eq!(reaction(moved(3), true, true), Reaction::Drag);
    assert_eq!(reaction(moved(3), true, false), Reaction::Ignore);
    assert_eq!(reaction(release(), false, true), Reaction::Release);
    assert_eq!(reaction(release(), true, false), Reaction::Ignore);
}

#[test]
fn reaction_ignores_what_is_not_the_left_button_or_a_move() {
    let others = [
        Event::Mouse(mouse::Event::ButtonPressed(mouse::Button::Right)),
        Event::Mouse(mouse::Event::ButtonPressed(mouse::Button::Middle)),
        Event::Mouse(mouse::Event::ButtonPressed(mouse::Button::Other(4))),
        Event::Mouse(mouse::Event::ButtonReleased(mouse::Button::Right)),
        Event::Mouse(mouse::Event::CursorEntered),
        Event::Mouse(mouse::Event::CursorLeft),
        Event::Mouse(mouse::Event::WheelScrolled { delta_x: 0, delta_y: 3 }),
        Event::Keyboard(keyboard::Event::KeyPressed { key_code: 13 }),
        Event::Keyboard(keyboard::Event::CharacterReceived('a')),
        Event::Window(widget_core::window::Event::Resized { width: 1, height: 1 }),
    ];
    for event in others {
        assert_eq!(reaction(event, true, true), Reaction::Ignore);
        assert_eq!(reaction(event, true, false), Reaction::Ignore);
    }
}

#[test]
fn example_press_move_release() {
    let node = bar(0, 200);
    let mut state = State::new();
    let mut messages = Vec::new();

    send(&mut state, 0..=100, true, &node, press(), Point::new(50, 10), &mut messages);
    assert_eq!(messages, vec![Message::Changed(25)]);
    assert!(state.is_dragging());

    send(&mut state, 0..=100, true, &node, moved(100), Point::new(100, 10), &mut messages);
    assert_eq!(messages, vec![Message::Changed(25), Message::Changed(50)]);
    assert!(state.is_dragging());

    send(&mut state, 0..=100, true, &node, release(), Point::new(100, 10), &mut messages);
    assert_eq!(
        messages,
        vec![Message::Changed(25), Message::Changed(50), Message::Released]
    );
    assert!(!state.is_dragging());
}

#[test]
fn release_without_a_message_only_ends_the_drag() {
    let node = bar(0, 200);
    let mut state = State::new();
    let mut messages = Vec::new();
    send(&mut state, 0..=100, false, &node, press(), Point::new(200, 20), &mut messages);
    assert_eq!(messages, vec![Message::Changed(100)]);
    assert!(state.is_dragging());
    send(&mut state, 0..=100, false, &node, release(), Point::new(500, 500), &mut messages);
    assert_eq!(messages, vec![Message::Changed(100)]);
    assert!(!state.is_dragging());
}

#[test]
fn press_outside_the_box_does_nothing() {
    let node = bar(10, 200);
    let mut state = State::new();
    let mut messages = Vec::new();
    for cursor in [Point::new(9, 10), Point::new(211, 10), Point::new(50, -1), Point::new(50, 21)] {
        send(&mut state, 0..=100, true, &node, press(), cursor, &mut messages);
        assert!(messages.is_empty());
        assert!(!state.is_dragging());
    }
}

#[test]
fn move_and_release_without_a_drag_do_nothing() {
    let node = bar(0, 200);
    let mut state = State::new();
    let mut messages = vec![Message::Released];
    send(&mut state, 0..=100, true, &node, moved(50), Point::new(50, 10), &mut messages);
    send(&mut state, 0..=100, true, &node, release(), Point::new(50, 10), &mut messages);
    assert_eq!(messages, vec![Message::Released]);
    assert!(!state.is_dragging());
}

#[test]
fn drag_reports_every_move_even_outside_the_box() {
    let node = bar(0, 200);
    let mut state = State::new();
    let mut messages = Vec::new();
    send(&mut state, 0..=100, true, &node, press(), Point::new(0, 0), &mut messages);
    send(&mut state, 0..=100, true, &node, moved(-20), Point::new(-20, 300), &mut messages);
    send(&mut state, 0..=100, true, &node, moved(-20), Point::new(-20, 300), &mut messages);
    send(&mut state, 0..=100, true, &node, moved(900), Point::new(900, -300), &mut messages);
    assert_eq!(
        messages,
        vec![
            Message::Changed(0),
            Message::Changed(0),
            Message::Changed(0),
            Message::Changed(100)
        ]
    );
    assert!(state.is_dragging());
}

#[test]
fn other_events_leave_a_drag_alone() {
    let node = bar(0, 200);
    let mut state = State::new();
    let mut messages = Vec::new();
    send(&mut state, 0..=100, true, &node, press(), Point::new(20, 5), &mut messages);
    let right = Event::Mouse(mouse::Event::ButtonReleased(mouse::Button::Right));
    send(&mut state, 0..=100, true, &node, right, Point::new(20, 5), &mut messages);
    let key = Event::Keyboard(keyboard::Event::KeyReleased { key_code: 27 });
    send(&mut state, 0..=100, true, &node, key, Point::new(20, 5), &mut messages);
    assert_eq!(messages, vec![Message::Changed(10)]);
    assert!(state.is_dragging());
}

fn drawn(slider: &Slider<'_, Message, Recorder, fn(i64) -> Message>) -> Drawn {
    let node = bar(30, 200);
    let mut renderer = Recorder::new(20);
    slider.draw(&mut renderer, &(), Layout::new(&node), Point::new(8, 9));
    renderer.drawn.pop().unwrap()
}

#[test]
fn value_is_brought_into_the_range_on_construction() {
    let cases =
        [(15, 15), (10, 10), (20, 20), (9, 10), (21, 20), (i64::MIN, 10), (i64::MAX, 20)];
    for (given, kept) in cases {
        let mut state = State::new();
        let on_change = Message::Changed as fn(i64) -> Message;
        let slider = Slider::new(&mut state, 10..=20, given, on_change);
        let shown = drawn(&slider);
        assert_eq!(shown.value, kept);
        assert_eq!(shown.range, 10..=20);
    }
}

#[test]
fn value_of_an_inverted_range_is_its_end_on_construction() {
    for given in [-5, 0, 5, 10, 15] {
        let mut state = State::new();
        let on_change = Message::Changed as fn(i64) -> Message;
        let slider = Slider::new(&mut state, 10..=0, given, on_change);
        let shown = drawn(&slider);
        assert_eq!(shown.value, 0);
        assert_eq!(shown.range, 10..=0);
    }
}

#[test]
fn draw_shows_a_drag() {
    let node = bar(30, 200);
    let mut state = State::new();
    let mut messages = Vec::new();
    send(&mut state, 0..=100, false, &node, press(), Point::new(30, 0), &mut messages);
    let slider = Slider::new(&mut state, -4..=4, 3, Message::Changed as fn(i64) -> Message);
    assert_eq!(
        drawn(&slider),
        Drawn {
            bounds: Rectangle { x: 30, y: 0, width: 200, height: 20 },
            cursor_position: Point::new(8, 9),
            range: -4..=4,
            value: 3,
            is_dragging: true,
        }
    );
}

#[test]
fn draw_hands_the_slider_to_the_renderer() {
    let node = bar(30, 200);
    let mut state = State::new();
    let slider: Slider<'_, Message, Recorder, _> =
        Slider::new(&mut state, -4..=4, 9, Message::Changed).style(7u8);
    let mut renderer = Recorder::new(20);
    assert_eq!(slider.draw(&mut renderer, &(), Layout::new(&node), Point::new(8, 9)), 1);
    assert_eq!(
        renderer.drawn,
        vec![Drawn {
            bounds: Rectangle { x: 30, y: 0, width: 200, height: 20 },
            cursor_position: Point::new(8, 9),
            range: -4..=4,
            value: 4,
            is_dragging: false,
        }]
    );
}

#[test]
fn layout_follows_the_width_and_the_natural_height() {
    let limits = Limits::new(Size::new(10, 5), Size::new(200, 100));
    let mut state = State::new();
    let slider: Slider<'_, Message, Recorder, _> =
        Slider::new(&mut state, 0..=100, 0, Message::Changed);
    assert_eq!(Widget::width(&slider), Length::Fill);
    assert_eq!(Widget::height(&slider), Length::Shrink);
    let node = slider.layout(&Recorder::new(20), &limits);
    assert_eq!(node.bounds(), Rectangle { x: 0, y: 0, width: 200, height: 20 });
    assert!(node.children().is_empty());

    let slider = slider.width(Length::Units(64));
    assert_eq!(Widget::width(&slider), Length::Units(64));
    assert_eq!(slider.layout(&Recorder::new(20), &limits).size(), Size::new(64, 20));
    let slider = slider.width(Length::Shrink);
    assert_eq!(slider.layout(&Recorder::new(20), &limits).size(), Size::new(10, 20));
    let slider = slider.width(Length::FillPortion(3));
    assert_eq!(slider.layout(&Recorder::new(20), &limits).size(), Size::new(200, 20));
}

#[test]
fn layout_keeps_within_the_limits() {
    let limits = Limits::new(Size::new(10, 5), Size::new(200, 100));
    assert_eq!(lay_out(Length::Units(500), 20, &limits).size(), Size::new(200, 20));
    assert_eq!(lay_out(Length::Units(3), 20, &limits).size(), Size::new(10, 20));
    assert_eq!(lay_out(Length::Fill, 2, &limits).size(), Size::new(200, 5));
    assert_eq!(lay_out(Length::Fill, 70_000, &limits).size(), Size::new(200, 100));
    let nothing = Limits::new(Size::zero(), Size::zero());
    assert_eq!(lay_out(Length::Fill, 0, &nothing).size(), Size::zero());
}

fn layout_hash(width: Length, range: RangeInclusive<i64>, value: i64, dragging: bool) -> u64 {
    let node = bar(0, 200);
    let mut state = State::new();
    let mut messages = Vec::new();
    if dragging {
        send(&mut state, 0..=1, false, &node, press(), Point::origin(), &mut messages);
    }
    let slider: Slider<'_, Message, Recorder, _> =
        Slider::new(&mut state, range, value, Message::Changed).width(width);
    let mut hasher = Hasher::new();
    slider.hash_layout(&mut hasher);
    hasher.finish()
}

#[test]
fn layout_hash_looks_at_the_width_alone() {
    let plain = layout_hash(Length::Fill, 0..=100, 0, false);
    assert_eq!(plain, layout_hash(Length::Fill, 5..=7, 6, true));
    assert_eq!(plain, layout_hash(Length::Fill, 100..=0, 50, false));
    assert_ne!(plain, layout_hash(Length::Shrink, 0..=100, 0, false));
    assert_ne!(plain, layout_hash(Length::FillPortion(1), 0..=100, 0, false));
    assert_ne!(plain, layout_hash(Length::Units(0), 0..=100, 0, false));
    assert_ne!(
        layout_hash(Length::Units(1), 0..=100, 0, false),
        layout_hash(Length::Units(2), 0..=100, 0, false)
    );
    assert_ne!(
        layout_hash(Length::Units(1), 0..=100, 0, false),
        layout_hash(Length::FillPortion(1), 0..=100, 0, false)
    );
}

#[test]
fn layout_hash_writes_the_kind_and_then_the_width() {
    let mut state = State::new();
    let slider: Slider<'_, Message, Recorder, _> =
        Slider::new(&mut state, 0..=100, 0, Message::Changed).width(Length::Units(9));
    let mut written = Hasher::new();
    written.write_u64(77);
    slider.hash_layout(&mut written);
    let mut expected = Hasher::new();
    expected.write_u64(77);
    expected.write_u64(slider::KIND);
    expected.write_u64(3);
    expected.write_u64(9);
    assert_eq!(written.finish(), expected.finish());
}

#[test]
fn equal_layout_hashes_mean_equal_layouts() {
    let limits = Limits::new(Size::new(10, 5), Size::new(200, 100));
    let widths = [
        Length::Fill,
        Length::FillPortion(2),
        Length::Shrink,
        Length::Units(40),
        Length::Units(40),
        Length::Fill,
    ];
    for a in widths {
        for b in widths {
            if layout_hash(a, 0..=1, 0, false) == layout_hash(b, 3..=9, 4, true) {
                assert_eq!(lay_out(a, 20, &limits).bounds(), lay_out(b, 20, &limits).bounds());
            }
        }
    }
}

#[test]
fn slider_works_as_an_element() {
    let node = bar(0, 200);
    let mut state = State::new();
    {
        let slider: Slider<'_, Message, Recorder, _> =
            Slider::new(&mut state, 0..=100, 0, Message::Changed).on_release(Message::Released);
        let mut element: Element<'_, Message, Recorder> = Element::from(slider);
        assert_eq!(element.width(), Length::Fill);
        assert_eq!(element.height(), Length::Shrink);
        let limits = Limits::new(Size::zero(), Size::new(300, 300));
        assert_eq!(element.layout(&Recorder::new(12), &limits).size(), Size::new(300, 12));
        let mut messages = Vec::new();
        let renderer = Recorder::new(12);
        let layout = Layout::new(&node);
        let cursor = Point::new(150, 3);
        element.on_event(press(), layout, cursor, &mut messages, &renderer, None);
        element.on_event(release(), layout, cursor, &mut messages, &renderer, None);
        assert_eq!(messages, vec![Message::Changed(75), Message::Released]);
        let mut renderer = Recorder::new(12);
        assert_eq!(element.draw(&mut renderer, &(), Layout::new(&node), Point::origin()), 1);
        let mut through_element = Hasher::new();
        element.hash_layout(&mut through_element);
        assert_eq!(through_element.finish(), layout_hash(Length::Fill, 0..=1, 0, false));
    }
    assert!(!state.is_dragging());
}

#[test]
fn null_renderer_lays_sliders_out_at_its_own_height() {
    assert_eq!(SLIDER_HEIGHT, 30);
    let limits = Limits::new(Size::zero(), Size::new(120, 100));
    let mut state = State::new();
    let slider: Slider<'_, Message, Null, _> =
        Slider::new(&mut state, 0..=100, 0, Message::Changed);
    let node = slider.layout(&Null::new(), &limits);
    assert_eq!(node.size(), Size::new(120, 30));
    let mut renderer = Null;
    slider.draw(&mut renderer, &(), Layout::new(&node), Point::origin());
    assert_eq!(renderer, Null::new());
}
