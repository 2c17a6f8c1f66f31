use ztar_rod::fly::{
    held_bits_from_scancode, Action, Event, Motion, State, KEY_A, KEY_D, KEY_S, KEY_W, STEP,
};

fn key(pressed: bool, scancode: u32) -> Event {
    Event::Key { pressed, scancode }
}

#[test]
fn scancodes_of_the_four_keys() {
    assert_eq!(held_bits_from_scancode(13), 0b1000);
    assert_eq!(held_bits_from_scancode(0), 0b0100);
    assert_eq!(held_bits_from_scancode(1), 0b0010);
    assert_eq!(held_bits_from_scancode(2), 0b0001);
    assert_eq!(held_bits_from_scancode(3), 0);
    assert_eq!(held_bits_from_scancode(12), 0);
    assert_eq!(held_bits_from_scancode(14), 0);
    assert_eq!(held_bits_from_scancode(u32::MAX), 0);
    assert_eq!((KEY_W, KEY_A, KEY_S, KEY_D), (8, 4, 2, 1));
    assert_eq!(STEP, 10);
}

#[test]
fn starts_with_nothing_held_and_a_stale_picture() {
    let s = State::default();
    assert_eq!(s, State { closed: false, is_clean: false, held: 0, mouse_down: false });
}

#[test]
fn close_request_closes() {
    let mut s = State::default();
    assert_eq!(s.handle(Event::CloseRequested), Action::Nothing);
    assert!(s.closed);
    assert_eq!(s, State { closed: true, ..State::default() });
}

#[test]
fn refresh_makes_the_picture_stale() {
    let mut s = State { is_clean: true, ..State::default() };
    assert_eq!(s.handle(Event::Refresh), Action::Nothing);
    assert!(!s.is_clean);
}

#[test]
fn keys_are_held_until_released() {
    let mut s = State::default();
    assert_eq!(s.handle(key(true, 13)), Action::Nothing);
    assert_eq!(s.held, 0b1000);
    s.handle(key(true, 2));
    assert_eq!(s.held, 0b1001);
    s.handle(key(true, 2));
    assert_eq!(s.held, 0b1001);
    s.handle(key(true, 50));
    assert_eq!(s.held, 0b1001);
    s.handle(key(false, 13));
    assert_eq!(s.held, 0b0001);
    s.handle(key(false, 0));
    assert_eq!(s.held, 0b0001);
    s.handle(key(false, 2));
    assert_eq!(s.held, 0);
}

#[test]
fn right_button_grabs_the_cursor() {
    let mut s = State::default();
    assert_eq!(s.handle(Event::RightButton { pressed: true }), Action::GrabCursor(true));
    assert!(s.mouse_down);
    assert_eq!(s.handle(Event::RightButton { pressed: false }), Action::GrabCursor(false));
    assert!(!s.mouse_down);
}

#[test]
fn mouse_steers_only_while_the_button_is_down() {
    let mut s = State { is_clean: true, ..State::default() };
    assert_eq!(s.handle(Event::MouseMotion), Action::Nothing);
    assert!(s.is_clean);
    s.handle(Event::RightButton { pressed: true });
    assert_eq!(s.handle(Event::MouseMotion), Action::Rotate);
    assert!(!s.is_clean);
}

#[test]
fn other_events_change_nothing() {
    let before = State { closed: false, is_clean: true, held: 0b0110, mouse_down: true };
    let mut s = before;
    assert_eq!(s.handle(Event::Other), Action::Nothing);
    assert_eq!(s, before);
}

#[test]
fn tick_moves_along_the_held_keys() {
    let motion = |held: u8| {
        let mut s = State { held, is_clean: true, ..State::default() };
        let m = s.tick();
        assert_eq!(s.is_clean, held == 0);
        assert_eq!(s.held, held);
        m
    };
    assert_eq!(motion(0), Motion { dolly: 0, truck: 0 });
    assert_eq!(motion(0b1000), Motion { dolly: -10, truck: 0 });
    assert_eq!(motion(0b0010), Motion { dolly: 10, truck: 0 });
    assert_eq!(motion(0b1010), Motion { dolly: 0, truck: 0 });
    assert_eq!(motion(0b0100), Motion { dolly: 0, truck: -10 });
    assert_eq!(motion(0b0001), Motion { dolly: 0, truck: 10 });
    assert_eq!(motion(0b0101), Motion { dolly: 0, truck: 0 });
    assert_eq!(motion(0b1001), Motion { dolly: -10, truck: 10 });
    assert_eq!(motion(0b0110), Motion { dolly: 10, truck: -10 });
    assert_eq!(motion(0b1111), Motion { dolly: 0, truck: 0 });
    assert_eq!(motion(0b1110), Motion { dolly: 0, truck: -10 });
}

#[test]
fn tick_keeps_a_stale_picture_stale() {
    let mut s = State::default();
    s.tick();
    assert_eq!(s, State::default());
}
