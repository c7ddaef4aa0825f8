use peautkb::leds::{Action, Mode};
use peautkb::menu::{Menu, MenuAction, SecondaryMenuAction, menu_len_of};
use peautkb::message::{DisplayedState, Message};
use peautkb::multi::Multi;
use peautkb::pages::{bongo_page, info_page, leds_page, menu_page};
use peautkb::info::Info;
use peautkb::leds::LEDs;

fn items(m: Multi<Message>) -> Vec<Message> {
    let mut out = Vec::new();
    let mut it = m.into_iter();
    while let Some(x) = it.next() {
        out.push(x);
    }
    out
}

fn send(menu: &mut Menu, a: MenuAction) -> Vec<Message> {
    items(menu.handle_event(Message::Menu(a)))
}

#[test]
fn up_down_stay_in_bounds() {
    let mut m = Menu::new();
    send(&mut m, MenuAction::Up);
    assert_eq!(m.current_item, 0);
    for _ in 0..10 {
        send(&mut m, MenuAction::Down);
        assert!(m.current_item <= menu_len_of(m.current_menu));
    }
    assert_eq!(m.current_item, 4);
    send(&mut m, MenuAction::Up);
    assert_eq!(m.current_item, 3);
}

#[test]
fn select_item_closes_and_sends() {
    let mut m = Menu::new();
    m.handle_event(Message::DisplaySelect(DisplayedState::Bongo));
    m.handle_event(Message::DisplaySelect(DisplayedState::Menu));
    send(&mut m, MenuAction::Down);
    assert_eq!(
        send(&mut m, MenuAction::Select),
        vec![
            Message::SetDefaultLayer(0),
            Message::DisplaySelect(DisplayedState::Bongo),
            Message::SecondaryMenu(SecondaryMenuAction::Close),
            Message::Ping,
        ]
    );
    assert_eq!((m.current_menu, m.current_item), (0, 0));
}

#[test]
fn submenus_and_back() {
    let mut m = Menu::new();
    send(&mut m, MenuAction::Down);
    send(&mut m, MenuAction::Down);
    send(&mut m, MenuAction::Down);
    send(&mut m, MenuAction::Down);
    // keymap
    assert_eq!(send(&mut m, MenuAction::Select), vec![]);
    assert_eq!((m.current_menu, m.current_item), (4, 0));
    send(&mut m, MenuAction::Down);
    send(&mut m, MenuAction::Down);
    let out = send(&mut m, MenuAction::Select);
    assert_eq!(out[3], Message::SetDefaultLayer(6));
    // back from a submenu returns to where the cursor was
    send(&mut m, MenuAction::Down);
    send(&mut m, MenuAction::Down);
    send(&mut m, MenuAction::Select);
    assert_eq!(m.current_menu, 1);
    send(&mut m, MenuAction::Select);
    assert_eq!((m.current_menu, m.current_item), (0, 2));
}

#[test]
fn solid_submenu_opens_on_the_other_board_and_dials() {
    let mut m = Menu::new();
    send(&mut m, MenuAction::Down);
    send(&mut m, MenuAction::Down);
    send(&mut m, MenuAction::Down);
    send(&mut m, MenuAction::Select);
    assert_eq!(m.current_menu, 5);
    send(&mut m, MenuAction::Down);
    send(&mut m, MenuAction::Down);
    assert_eq!(
        send(&mut m, MenuAction::Select),
        vec![
            Message::SecondaryMenu(SecondaryMenuAction::Open(DisplayedState::Leds)),
            Message::LED(Action::SetMode(Mode::Solid)),
        ]
    );
    assert_eq!(m.current_menu, 6);
    assert_eq!(send(&mut m, MenuAction::Left), vec![]);
    send(&mut m, MenuAction::Down);
    assert_eq!(send(&mut m, MenuAction::Left), vec![Message::LED(Action::DecrementRed)]);
    assert_eq!(send(&mut m, MenuAction::Right), vec![Message::LED(Action::IncrementRed)]);
    assert_eq!(send(&mut m, MenuAction::Select), vec![]);
    let closing = send(&mut m, MenuAction::Close);
    assert_eq!(closing.len(), 3);
    assert_eq!((m.current_menu, m.current_item), (0, 0));
}

#[test]
fn other_board_opens_page() {
    let mut m = Menu::new();
    let out = items(m.handle_event(Message::SecondaryMenu(SecondaryMenuAction::Open(
        DisplayedState::Leds,
    ))));
    assert_eq!(out, vec![Message::DisplaySelect(DisplayedState::Leds)]);
    assert_eq!(m.last_display_state, DisplayedState::Leds);
    assert_eq!(items(m.handle_event(Message::SecondaryMenu(SecondaryMenuAction::Close))), vec![]);
}

#[test]
fn pages_text() {
    let mut info = Info::new();
    info.handle_event(Message::YouArePrimary);
    info.handle_event(Message::CmdHeld);
    let p = info_page(&info);
    let texts: Vec<&str> = p.iter().map(|t| t.text.as_str()).collect();
    assert_eq!(
        texts,
        vec!["hand:", "left", "usb:", "false", "layer:", "default", "cmd:", "true", "ctrl:", "false"]
    );
    let leds = LEDs::new();
    let lp = leds_page(&leds);
    assert_eq!(lp[1].text, "solid");
    assert_eq!(lp[3].text, "0");
    assert_eq!(lp[5].text, "80");
    assert_eq!(lp[7].text, "C8");
    assert_eq!((lp[7].x, lp[7].y), (42, 39));
    let mut m = Menu::new();
    m.handle_event(Message::Menu(MenuAction::Down));
    let mp = menu_page(&m);
    assert_eq!(mp.len(), 6);
    assert_eq!(mp[1].text, "ping");
    assert_eq!(mp[4].text, "keymap");
    assert_eq!((mp[5].text.as_str(), mp[5].y), ("-", 13));
    assert_eq!(bongo_page()[0].text, "bongo!");
}
