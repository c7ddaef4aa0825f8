use peautkb::board::{Board, Effect};
use peautkb::dispatcher::{Dispatcher, OLED, ScreenCommand};
use peautkb::keymap::{Layer, layers};
use peautkb::layout::Layout;
use peautkb::leds::LEDs;
use peautkb::menu::MenuAction;
use peautkb::message::{DisplayedState, Event, Hand, Message};
use peautkb::serial::{create_comms, decode};

fn board() -> Board {
    let (tx, rx) = create_comms();
    Board::new(Dispatcher::new(OLED::new(), LEDs::new()), Layout::new(layers()), tx, rx)
}

fn drain(b: &mut Board) -> Vec<Message> {
    let mut seen = Vec::new();
    while let Some(m) = b.next_message() {
        seen.push(m);
        b.dispatch_event(m);
    }
    seen
}

fn decode_all(mut bytes: &[u8]) -> Vec<Message> {
    let mut out = Vec::new();
    while let Some((m, n)) = decode(bytes) {
        out.push(m);
        bytes = &bytes[n..];
    }
    assert!(bytes.is_empty());
    out
}

#[test]
fn primary_late_init() {
    let mut b = board();
    assert_eq!(b.usb_event(), Effect::ScheduleLateInit(1000));
    assert_eq!(b.usb_event(), Effect::Nothing);
    b.late_init(true);
    assert_eq!(
        b.queue,
        vec![Message::LateInit, Message::YouArePrimary, Message::UsbConnected(true)]
    );
    assert!(b.custom.is_primary);
    let m = b.next_message().unwrap();
    assert_eq!(b.dispatch_event(m), Effect::StartTimers);
    drain(&mut b);
    assert!(b.timer_init);
    assert_eq!(b.dispatcher.info.hand, Some(Hand::Left));
    assert!(b.dispatcher.info.usb_connected);
    assert_eq!(
        b.dispatcher.oled.take_commands(),
        vec![ScreenCommand::Init, ScreenCommand::RotateLeft]
    );
    assert!(b.take_outgoing().is_empty());
}

#[test]
fn secondary_late_init_and_remapped_keys() {
    let mut b = board();
    assert_eq!(b.serial_byte(0), Effect::ScheduleLateInit(4000));
    b.late_init(false);
    assert_eq!(b.queue, vec![Message::LateInit, Message::YouAreSecondary]);
    assert!(!b.custom.is_primary);
    drain(&mut b);
    assert_eq!(b.dispatcher.info.hand, Some(Hand::Right));
    b.take_outgoing();
    b.key_event(Event::Press(1, 2));
    b.key_event(Event::Release(1, 2));
    drain(&mut b);
    assert_eq!(
        decode_all(&b.take_outgoing()),
        vec![Message::SecondaryKeyPress(1, 11), Message::SecondaryKeyRelease(1, 11)]
    );
}

#[test]
fn primary_takes_secondary_keys() {
    let mut b = board();
    b.serial_byte(0);
    b.late_init(true);
    drain(&mut b);
    // the other half pressed the key at row 2, column 8: "K"
    for byte in [9u8, 2, 8] {
        b.serial_byte(byte);
    }
    assert_eq!(b.keyboard_report().keys[0], 0x0E);
    assert_eq!(drain(&mut b), vec![Message::SecondaryKeyPress(2, 8)]);
}

#[test]
fn ping_gets_one_pong() {
    let mut d = Dispatcher::new(OLED::new(), LEDs::new());
    let out = d.dispatch(Message::Ping);
    assert_eq!(out, vec![Message::Pong]);
    d.dispatch(Message::Menu(MenuAction::Down));
    d.dispatch(Message::YouArePrimary);
    assert_eq!(d.dispatch(Message::Ping), vec![Message::Pong]);
}

#[test]
fn dispatcher_tracks_selected_page() {
    let mut d = Dispatcher::new(OLED::new(), LEDs::new());
    assert_eq!(d.update_display(), None);
    let out = d.dispatch(Message::LateInit);
    assert_eq!(out, vec![Message::InitTimers]);
    assert_eq!(d.update_display(), Some(DisplayedState::Info));
    d.dispatch(Message::DisplaySelect(DisplayedState::Bongo));
    assert_eq!(d.update_display(), Some(DisplayedState::Bongo));
    d.dispatch(Message::SecondaryDisplaySelect(DisplayedState::Leds));
    assert_eq!(d.displayed_state, DisplayedState::Leds);
}

#[test]
fn layer_change_reported_on_primary_only() {
    let mut b = board();
    b.custom.is_primary();
    // hold the numbers layer key (row 3, column 4)
    b.key_event(Event::Press(3, 4));
    b.scan_tick();
    assert!(b.queue.contains(&Message::CurrentLayer(Layer::Numbers)));
    let mut s = board();
    s.key_event(Event::Press(3, 4));
    s.scan_tick();
    assert!(!s.queue.iter().any(|m| matches!(m, Message::CurrentLayer(_))));
}

#[test]
fn info_forwards_and_sleeps() {
    let mut d = Dispatcher::new(OLED::new(), LEDs::new());
    assert_eq!(d.dispatch(Message::MatrixKeyPress(0, 0)), vec![Message::SecondaryKeyPress(0, 13)]);
    d.dispatch(Message::UsbConnected(true));
    assert_eq!(d.dispatch(Message::MatrixKeyPress(3, 13)), vec![]);
    d.info.ticks_since_press = 4320;
    assert_eq!(d.dispatch(Message::UpdateDisplay), vec![Message::Sleep]);
    assert_eq!(d.dispatch(Message::MatrixKeyPress(0, 1)), vec![Message::Wake]);
    assert_eq!(d.info.ticks_since_press, 0);
    assert_eq!(
        d.dispatch(Message::CurrentLayer(Layer::Symbols)),
        vec![Message::SecondaryCurrentLayer(Layer::Symbols)]
    );
}

#[test]
fn ping_until_started() {
    let mut b = board();
    assert_eq!(b.ping(), vec![11]);
    b.usb_event();
    assert_eq!(b.ping(), Vec::<u8>::new());
}

#[test]
fn key_events_reach_layout_and_dispatcher() {
    let mut b = board();
    b.key_event(Event::Press(0, 1));
    assert_eq!(b.queue, vec![Message::MatrixKeyPress(0, 1)]);
    assert_eq!(b.layout.pending, vec![Event::Press(0, 1)]);
    b.scan_tick();
    assert_eq!(b.layout.keycodes(), vec![0x14]);
    b.key_event(Event::Press(0, 14));
    assert_eq!(b.queue.len(), 1);
}

#[test]
fn late_init_with_little_room() {
    let mut b = board();
    for _ in 0..28 {
        b.spawn(Message::Ping);
    }
    b.late_init(false);
    assert_eq!(b.queue.len(), 30);
    assert_eq!(b.queue[28..].to_vec(), vec![Message::LateInit, Message::YouAreSecondary]);
    assert!(!b.custom.is_primary);
    let mut p = board();
    for _ in 0..28 {
        p.spawn(Message::Ping);
    }
    p.late_init(true);
    assert_eq!(p.queue[28..].to_vec(), vec![Message::LateInit, Message::YouArePrimary]);
    assert!(p.custom.is_primary);
}

#[test]
fn default_layer_follows_menu_choice() {
    let mut b = board();
    b.spawn(Message::Menu(MenuAction::Down));
    b.spawn(Message::Menu(MenuAction::Down));
    b.spawn(Message::Menu(MenuAction::Down));
    b.spawn(Message::Menu(MenuAction::Down));
    b.spawn(Message::Menu(MenuAction::Select));
    b.spawn(Message::Menu(MenuAction::Down));
    b.spawn(Message::Menu(MenuAction::Down));
    b.spawn(Message::Menu(MenuAction::Select));
    drain(&mut b);
    assert_eq!(b.layout.default_layer, 6);
}
