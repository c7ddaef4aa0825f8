use peautkb::custom_action::{CustomActionState, CustomEvent, KbHidReport, PkbAction};
use peautkb::keymap::{Layer, layers};
use peautkb::layout::{HoldTapConfig, KeyAction, Layout};
use peautkb::media_keys::{MediaKey, MediaKeyHidReport, MediaKeys};
use peautkb::menu::MenuAction;
use peautkb::message::{DisplayedState, Event, Message};
use peautkb::rotary::{Direction, Rotary};

const A: u8 = 0x04;
const B: u8 = 0x05;
const C: u8 = 0x06;

/// One layer whose key (0, 0) is a hold-tap of A and B with a timeout of
/// 200 ticks, and whose key (0, 1) is C.
fn hold_tap_layout(config: HoldTapConfig) -> Layout {
    let mut v = vec![KeyAction::NoOp; 56];
    v[0] = KeyAction::HoldTap { timeout: 200, tap: A, hold: B, config };
    v[1] = KeyAction::Key(C);
    Layout::new(v)
}

#[test]
fn hold_tap_released_early_taps() {
    let mut l = hold_tap_layout(HoldTapConfig::Default);
    l.event(Event::Press(0, 0));
    l.tick();
    for _ in 0..198 {
        l.tick();
        assert!(l.waiting.is_some());
    }
    l.event(Event::Release(0, 0));
    l.tick();
    assert!(l.waiting.is_none());
    assert_eq!(l.keycodes(), vec![A]);
    l.tick();
    assert_eq!(l.keycodes(), Vec::<u8>::new());
}

#[test]
fn hold_tap_held_holds() {
    let mut l = hold_tap_layout(HoldTapConfig::Default);
    l.event(Event::Press(0, 0));
    l.tick();
    for _ in 0..199 {
        l.tick();
    }
    assert!(l.waiting.is_some());
    assert_eq!(l.keycodes(), Vec::<u8>::new());
    l.tick();
    assert!(l.waiting.is_none());
    assert_eq!(l.keycodes(), vec![B]);
}

#[test]
fn hold_tap_other_key_press_holds_at_once() {
    let mut l = hold_tap_layout(HoldTapConfig::HoldOnOtherKeyPress);
    l.event(Event::Press(0, 0));
    l.tick();
    for _ in 0..4 {
        l.tick();
    }
    l.event(Event::Press(0, 1));
    l.tick();
    assert_eq!(l.keycodes(), vec![B]);
    l.tick();
    assert_eq!(l.keycodes(), vec![B, C]);
    let mut d = hold_tap_layout(HoldTapConfig::Default);
    d.event(Event::Press(0, 0));
    d.tick();
    d.event(Event::Press(0, 1));
    d.tick();
    assert!(d.waiting.is_some());
}

#[test]
fn key_map_layers_and_custom_events() {
    let mut l = Layout::new(layers());
    assert_eq!(l.layers.len(), 7 * 56);
    // the menu key: custom press, then the menu layer is the default
    l.event(Event::Press(1, 6));
    assert_eq!(l.tick(), CustomEvent::Press(PkbAction::MenuOpen));
    assert_eq!(l.default_layer, Layer::Menu as usize);
    l.event(Event::Release(1, 6));
    assert_eq!(l.tick(), CustomEvent::Release(PkbAction::MenuOpen));
    // on the menu layer, (3, 0) is "down"
    l.event(Event::Press(3, 0));
    assert_eq!(l.tick(), CustomEvent::Press(PkbAction::MenuDown));
    // a transparent key falls through to... the default layer itself: nothing
    l.event(Event::Press(0, 0));
    l.tick();
    assert_eq!(l.keycodes(), Vec::<u8>::new());
    l.set_default_layer(0);
    l.event(Event::Press(3, 4));
    l.tick();
    assert_eq!(l.current_layer(), 1);
    l.event(Event::Press(0, 1));
    l.tick();
    assert_eq!(l.keycodes(), vec![0x3A]);
}

#[test]
fn shifted_keys_and_report() {
    let mut l = Layout::new(layers());
    l.event(Event::Press(3, 9));
    l.tick();
    l.event(Event::Press(1, 4));
    l.tick();
    assert_eq!(l.keycodes(), vec![0xE1, 0x2F]);
    let mut r = KbHidReport::new();
    for k in l.keycodes() {
        r.pressed(k);
    }
    assert_eq!(r.as_bytes(), [0x02, 0, 0x2F, 0, 0, 0, 0, 0]);
}

#[test]
fn report_rolls_over() {
    let mut r = KbHidReport::new();
    for k in [4u8, 5, 6, 7, 8, 9] {
        r.pressed(k);
    }
    assert_eq!(r.as_bytes(), [0, 0, 4, 5, 6, 7, 8, 9]);
    r.pressed(10);
    assert_eq!(r.keys, [1; 6]);
    r.pressed(0xE3);
    assert_eq!(r.modifiers, 0x08);
}

#[test]
fn custom_actions_become_messages() {
    let mut c = CustomActionState::new();
    let m = c.process(CustomEvent::Press(PkbAction::HoldCmd));
    assert_eq!(m.into_iter().next(), Some(Message::CmdHeld));
    assert!(c.hold_cmd);
    assert_eq!(c.process(CustomEvent::Release(PkbAction::MenuOpen)).len(), 0);
    c.is_primary();
    assert_eq!(
        c.process(CustomEvent::Release(PkbAction::MenuOpen)).into_iter().next(),
        Some(Message::DisplaySelect(DisplayedState::Menu))
    );
    assert_eq!(
        c.process(CustomEvent::Release(PkbAction::MenuLeft)).into_iter().next(),
        Some(Message::Menu(MenuAction::Left))
    );
    let mut r = KbHidReport::new();
    c.modify_kb_report(&mut r);
    assert_eq!(r.modifiers, 0x08);
    c.process(CustomEvent::Press(PkbAction::HoldCtrl));
    c.modify_kb_report(&mut r);
    assert_eq!(r.modifiers, 0x09);
    c.process(CustomEvent::Release(PkbAction::ReleaseCmd));
    assert!(!c.hold_cmd);
}

#[test]
fn media_reports_queue_up_to_eight() {
    let mut c = CustomActionState::new();
    c.process(CustomEvent::Press(PkbAction::MediaKey(MediaKey::PlayPause)));
    c.process(CustomEvent::Release(PkbAction::MediaKey(MediaKey::PlayPause)));
    assert_eq!(c.get_mk_report(), Some(MediaKeyHidReport(0x00, 0xCD)));
    assert_eq!(c.get_mk_report(), Some(MediaKeyHidReport(0, 0)));
    assert_eq!(c.get_mk_report(), None);
    for _ in 0..9 {
        c.process(CustomEvent::Press(PkbAction::MediaKey(MediaKey::NextTrack)));
    }
    let mut n = 0;
    while c.get_mk_report().is_some() {
        n += 1;
    }
    assert_eq!(n, 8);
}

#[test]
fn layer_reported_once_on_primary() {
    let mut c = CustomActionState::new();
    assert_eq!(c.check_layout_for_events(3).len(), 0);
    c.is_primary();
    assert_eq!(
        c.check_layout_for_events(3).into_iter().next(),
        Some(Message::CurrentLayer(Layer::Navigation))
    );
    assert_eq!(c.check_layout_for_events(3).len(), 0);
    assert_eq!(
        c.check_layout_for_events(9).into_iter().next(),
        Some(Message::CurrentLayer(Layer::Missing))
    );
}

#[test]
fn media_key_reports() {
    assert_eq!(MediaKeyHidReport::from_key(MediaKey::Record).as_bytes(), [0x00, 0xB2]);
    assert_eq!(MediaKeyHidReport::from_usage(0x1234).as_bytes(), [0x12, 0x34]);
    assert_eq!(MediaKeyHidReport(0x12, 0x34).usage(), 0x1234);
    let mut k = MediaKeys::new();
    assert!(!k.set_report(MediaKeyHidReport::none()));
    assert!(k.set_report(MediaKeyHidReport::from_key(MediaKey::StopEject)));
    assert!(!k.set_report(MediaKeyHidReport(0, 0xCC)));
}

#[test]
fn rotary_turns_press_then_release() {
    let mut r = Rotary::new((3, 0), (3, 1));
    assert_eq!(r.read_and_debounce((false, true)), Some(Direction::ACW));
    assert_eq!(r.read_and_debounce((false, true)), None);
    let mut p = r.poll((false, false));
    assert_eq!(p.take(), Some(Event::Press(3, 0)));
    let mut rel = r.release();
    assert_eq!(rel.take(), Some(Event::Release(3, 0)));
    assert_eq!(rel.take(), None);
    assert_eq!(r.release().len(), 0);
    let mut q = r.event_for(Direction::ACW);
    assert_eq!(q.take(), Some(Event::Press(3, 1)));
}

#[test]
fn full_event_queue_forces_hold() {
    let mut l = hold_tap_layout(HoldTapConfig::Default);
    l.event(Event::Press(0, 0));
    l.tick();
    for _ in 0..8 {
        l.event(Event::Press(0, 1));
        l.event(Event::Release(0, 1));
    }
    assert!(l.waiting.is_some());
    assert_eq!(l.pending.len(), 16);
    l.event(Event::Press(0, 1));
    assert!(l.waiting.is_none());
    assert_eq!(l.keycodes(), vec![B, C]);
    assert_eq!(l.pending.len(), 16);
}
