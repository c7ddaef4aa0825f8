use peautkb::keymap::Layer;
use peautkb::leds::solid::Solid;
use peautkb::leds::{Action, Mode};
use peautkb::menu::{MenuAction, SecondaryMenuAction};
use peautkb::message::{DisplayedState, Message, MessageType};
use peautkb::serial::{create_comms, decode, encode};

fn all_messages() -> Vec<Message> {
    vec![
        Message::LateInit,
        Message::InitTimers,
        Message::UsbConnected(true),
        Message::UsbConnected(false),
        Message::YouArePrimary,
        Message::YouAreSecondary,
        Message::UpdateDisplay,
        Message::Tick,
        Message::MatrixKeyPress(3, 13),
        Message::MatrixKeyRelease(0, 0),
        Message::SecondaryKeyPress(2, 7),
        Message::SecondaryKeyRelease(255, 255),
        Message::Ping,
        Message::Pong,
        Message::CmdHeld,
        Message::CmdReleased,
        Message::CtrlHeld,
        Message::CtrlReleased,
        Message::CurrentLayer(Layer::CS),
        Message::SecondaryCurrentLayer(Layer::Missing),
        Message::DisplaySelect(DisplayedState::Leds),
        Message::SecondaryDisplaySelect(DisplayedState::Bongo),
        Message::Menu(MenuAction::Right),
        Message::SecondaryMenu(SecondaryMenuAction::Open(DisplayedState::Leds)),
        Message::SecondaryMenu(SecondaryMenuAction::Close),
        Message::SetDefaultLayer(0),
        Message::SetDefaultLayer(6),
        Message::SetDefaultLayer(300),
        Message::SetDefaultLayer(usize::MAX),
        Message::Bongo,
        Message::LED(Action::SetMode(Mode::Fade)),
        Message::LED(Action::IncrementRed),
        Message::SecondaryLED(Action::Solid(Solid(1, 2, 3))),
        Message::SecondaryLED(Action::Update),
        Message::Sleep,
        Message::Wake,
    ]
}

#[test]
fn round_trip_every_variant() {
    for m in all_messages() {
        let bytes = encode(m);
        assert_eq!(decode(&bytes), Some((m, bytes.len())));
        let mut longer = bytes.clone();
        longer.extend_from_slice(&[0xFF, 0x00, 0x07]);
        assert_eq!(decode(&longer), Some((m, bytes.len())));
    }
}

#[test]
fn matrix_key_press_bytes() {
    assert_eq!(encode(Message::MatrixKeyPress(3, 13)), vec![7, 3, 13]);
    assert_eq!(encode(Message::Ping), vec![11]);
    assert_eq!(encode(Message::SetDefaultLayer(300)), vec![23, 0xAC, 0x02]);
    assert_eq!(encode(Message::SecondaryLED(Action::Solid(Solid(1, 2, 3)))), vec![26, 7, 1, 2, 3]);
}

#[test]
fn decode_rejects_bad_bytes() {
    assert_eq!(decode(&[]), None);
    assert_eq!(decode(&[7, 3]), None);
    assert_eq!(decode(&[29]), None);
    assert_eq!(decode(&[2, 2]), None);
    assert_eq!(decode(&[17, 8]), None);
    assert_eq!(decode(&[23, 0x80]), None);
    assert_eq!(decode(&[23, 0x80, 0x00]), None);
}

#[test]
fn rx_assembles_message_byte_by_byte() {
    let (mut tx, mut rx) = create_comms();
    let bytes = tx.send_event(Message::SecondaryKeyPress(3, 13));
    assert_eq!(rx.read_event(bytes[0]), None);
    assert_eq!(rx.read_event(bytes[1]), None);
    assert_eq!(rx.read_event(bytes[2]), Some(Message::SecondaryKeyPress(3, 13)));
    assert_eq!(rx.buffer.len(), 0);
    assert_eq!(rx.read_event(11), Some(Message::Ping));
}

#[test]
fn rx_buffer_resets_when_full() {
    let (_tx, mut rx) = create_comms();
    // a varint that never ends keeps the decoder waiting
    assert_eq!(rx.read_event(23), None);
    for _ in 0..63 {
        assert_eq!(rx.read_event(0x80), None);
    }
    assert_eq!(rx.buffer.len(), 64);
    assert_eq!(rx.read_event(0x80), None);
    assert_eq!(rx.buffer, vec![0x80]);
    assert_eq!(rx.read_event(12), None);
    assert_eq!(rx.buffer.len(), 2);
    let (_tx, mut rx) = create_comms();
    for _ in 0..64 {
        rx.read_event(0x80);
    }
    assert_eq!(rx.read_event(12), Some(Message::Pong));
    assert_eq!(rx.buffer.len(), 0);
}

#[test]
fn to_type_partitions_messages() {
    let remote = |m: &Message| {
        matches!(
            m,
            Message::YouAreSecondary
                | Message::SecondaryKeyPress(..)
                | Message::SecondaryKeyRelease(..)
                | Message::SecondaryDisplaySelect(_)
                | Message::SecondaryCurrentLayer(_)
                | Message::SecondaryLED(_)
                | Message::SecondaryMenu(_)
                | Message::Bongo
                | Message::Pong
        )
    };
    for m in all_messages() {
        match m.to_type() {
            MessageType::Remote(x) => {
                assert_eq!(x, m);
                assert!(remote(&m));
            }
            MessageType::Local(x) => {
                assert_eq!(x, m);
                assert!(!remote(&m));
            }
        }
    }
}

#[test]
fn layer_round_trip() {
    let all = [
        Layer::Default,
        Layer::Numbers,
        Layer::Symbols,
        Layer::Navigation,
        Layer::Tabbing,
        Layer::Menu,
        Layer::CS,
        Layer::Missing,
    ];
    for l in all {
        assert_eq!(Layer::from(usize::from(l)), l);
    }
    for i in 0..7usize {
        assert_eq!(usize::from(Layer::from(i)), i);
    }
    assert_eq!(Layer::from(7usize), Layer::Missing);
    assert_eq!(Layer::from(100usize), Layer::Missing);
    assert_eq!(usize::from(Layer::Missing), 8);
    assert_eq!(Layer::Navigation.name(), "nav");
    assert_eq!(Layer::CS.name(), "CS");
}
