use jot::geometry::{Point, Rect, MAX_INT_VALUE, MIN_INT_VALUE};
use jot::note::Priority;
use jot::scratchpad::{field_text, layout, Command, InputEvent, Scratchpad, TextState};

fn on_scratchpad() -> Scratchpad {
    Scratchpad { state: TextState::scratchpad(), priority: Priority::LOW }
}

#[test]
fn rect_new_clamps() {
    let r = Rect::new(5, 6, 0, 10);
    assert_eq!((r.left(), r.top(), r.width(), r.height()), (5, 6, 1, 10));
    let r = Rect::new(i32::MAX, i32::MIN, u32::MAX, 3);
    assert_eq!((r.left(), r.top(), r.width()), (MAX_INT_VALUE, MIN_INT_VALUE, MAX_INT_VALUE as u32));
}

#[test]
fn rect_contains_edges() {
    let r = Rect::new(10, 20, 5, 5);
    assert!(r.contains_point(Point::new(10, 20)));
    assert!(r.contains_point(Point::new(14, 24)));
    assert!(!r.contains_point(Point::new(15, 24)));
    assert!(!r.contains_point(Point::new(14, 25)));
    assert!(!r.contains_point(Point::new(9, 20)));
}

#[test]
fn rect_from_center() {
    let r = Rect::from_center(Point::new(160, 274), 200, 30);
    assert_eq!((r.left(), r.top(), r.width(), r.height()), (60, 259, 200, 30));
    let r = Rect::from_center(Point::new(0, 0), 3, 3);
    assert_eq!((r.left(), r.top()), (-1, -1));
}

#[test]
fn layout_places_buttons() {
    let l = layout(100, 50);
    let p = l.priority_button;
    assert_eq!((p.left(), p.top(), p.width(), p.height()), (20, 498, 100, 50));
    let j = l.jot_button;
    assert_eq!((j.left(), j.top(), j.width(), j.height()), (130, 498, 100, 50));
    let u = l.username_input;
    assert_eq!((u.left(), u.top(), u.width(), u.height()), (60, 259, 200, 30));
    let w = l.password_input;
    assert_eq!((w.left(), w.top(), w.width(), w.height()), (60, 299, 200, 30));
}

#[test]
fn buttons_do_not_overlap() {
    let l = layout(100, 50);
    for x in 0..320 {
        for y in 480..568 {
            let p = Point::new(x, y);
            assert!(!(l.priority_button.contains_point(p) && l.jot_button.contains_point(p)));
        }
    }
}

#[test]
fn starts_on_login() {
    let s = Scratchpad::new();
    assert_eq!(s.priority, Priority::LOW);
    match s.state {
        TextState::Login { userbuf, passbuf, pass_selected } => {
            assert!(userbuf.is_empty() && passbuf.is_empty() && !pass_selected)
        }
        other => panic!("{:?}", other),
    }
}

#[test]
fn typing_fills_selected_login_field() {
    let l = layout(100, 50);
    let mut s = Scratchpad::new();
    assert!(matches!(s.handle(InputEvent::TextEditing { text: "ann".into() }, &l), Command::Continue));
    assert!(matches!(s.handle(InputEvent::TabDown, &l), Command::Continue));
    s.handle(InputEvent::TextEditing { text: "secret".into() }, &l);
    match &s.state {
        TextState::Login { userbuf, passbuf, pass_selected } => {
            assert_eq!(userbuf, "ann");
            assert_eq!(passbuf, "secret");
            assert!(*pass_selected);
        }
        other => panic!("{:?}", other),
    }
    s.handle(InputEvent::TabDown, &l);
    match &s.state {
        TextState::Login { pass_selected, .. } => assert!(!*pass_selected),
        other => panic!("{:?}", other),
    }
}

#[test]
fn clicks_on_login_do_nothing() {
    let l = layout(100, 50);
    let mut s = Scratchpad::new();
    assert!(matches!(s.handle(InputEvent::MouseButtonDown { x: 25, y: 500 }, &l), Command::Continue));
    assert_eq!(s.priority, Priority::LOW);
}

#[test]
fn priority_button_cycles() {
    let l = layout(100, 50);
    let mut s = on_scratchpad();
    s.handle(InputEvent::MouseButtonDown { x: 25, y: 500 }, &l);
    assert_eq!(s.priority, Priority::MED);
    s.handle(InputEvent::MouseButtonDown { x: 119, y: 547 }, &l);
    assert_eq!(s.priority, Priority::HIGH);
    s.handle(InputEvent::MouseButtonDown { x: 20, y: 498 }, &l);
    assert_eq!(s.priority, Priority::LOW);
}

#[test]
fn jot_button_posts_and_clears() {
    let l = layout(100, 50);
    let mut s = on_scratchpad();
    s.handle(InputEvent::TextEditing { text: "remember this".into() }, &l);
    s.handle(InputEvent::MouseButtonDown { x: 25, y: 500 }, &l);
    match s.handle(InputEvent::MouseButtonDown { x: 150, y: 510 }, &l) {
        Command::PostNote(req) => {
            assert_eq!(req.text, "remember this");
            assert_eq!(req.priority, Priority::MED);
            assert_eq!(req.user_id, 2);
        }
        other => panic!("{:?}", other),
    }
    match &s.state {
        TextState::Scratchpad { textbuf } => assert!(textbuf.is_empty()),
        other => panic!("{:?}", other),
    }
    assert_eq!(s.priority, Priority::MED);
}

#[test]
fn clicks_elsewhere_and_quit() {
    let l = layout(100, 50);
    let mut s = on_scratchpad();
    assert!(matches!(s.handle(InputEvent::MouseButtonDown { x: 125, y: 500 }, &l), Command::Continue));
    assert!(matches!(s.handle(InputEvent::MouseButtonDown { x: 5, y: 5 }, &l), Command::Continue));
    assert!(matches!(s.handle(InputEvent::Other, &l), Command::Continue));
    assert!(matches!(s.handle(InputEvent::Quit, &l), Command::Quit));
    assert_eq!(s.priority, Priority::LOW);
}

#[test]
fn field_text_placeholder() {
    assert_eq!(field_text("", "username"), ("username", true));
    assert_eq!(field_text("ann", "username"), ("ann", false));
}
