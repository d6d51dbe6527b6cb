use papirus::components::request::{Palette, Request, RequestFrame, SelectedTab};
use papirus::components::Component;
use papirus::config::Config;
use papirus::event::{KeyCode, KeyEvent, KeyEventKind, KeyModifiers, MouseButton, MouseEvent, MouseEventKind};
use papirus::geometry::Rect;
use papirus::action::Action;

fn release(code: KeyCode) -> KeyEvent {
    KeyEvent { code, modifiers: KeyModifiers::none(), kind: KeyEventKind::Release }
}

#[test]
fn next_walks_right_and_stops_on_the_last_tab() {
    assert_eq!(SelectedTab::Query.next(), SelectedTab::Body);
    assert_eq!(SelectedTab::Body.next(), SelectedTab::Headers);
    assert_eq!(SelectedTab::Headers.next(), SelectedTab::Auth);
    assert_eq!(SelectedTab::Auth.next(), SelectedTab::Auth);
}

#[test]
fn previous_walks_left_and_stops_on_the_first_tab() {
    assert_eq!(SelectedTab::Auth.previous(), SelectedTab::Headers);
    assert_eq!(SelectedTab::Headers.previous(), SelectedTab::Body);
    assert_eq!(SelectedTab::Body.previous(), SelectedTab::Query);
    assert_eq!(SelectedTab::Query.previous(), SelectedTab::Query);
}

#[test]
fn tabs_are_numbered_from_zero() {
    assert_eq!(SelectedTab::COUNT, 4);
    assert_eq!(SelectedTab::default(), SelectedTab::Query);
    for (i, tab) in SelectedTab::all().into_iter().enumerate() {
        assert_eq!(tab.index(), i);
        assert_eq!(SelectedTab::from_repr(i), Some(tab));
    }
    assert_eq!(SelectedTab::from_repr(4), None);
    assert_eq!(SelectedTab::from_repr(usize::MAX), None);
    assert_eq!(
        SelectedTab::all(),
        vec![SelectedTab::Query, SelectedTab::Body, SelectedTab::Headers, SelectedTab::Auth]
    );
}

#[test]
fn each_tab_has_its_palette_and_title() {
    assert_eq!(SelectedTab::Query.palette(), Palette::Blue);
    assert_eq!(SelectedTab::Body.palette(), Palette::Green);
    assert_eq!(SelectedTab::Headers.palette(), Palette::Yellow);
    assert_eq!(SelectedTab::Auth.palette(), Palette::Red);
    assert_eq!(SelectedTab::Query.to_string(), "Query");
    assert_eq!(SelectedTab::Body.to_string(), "Body");
    assert_eq!(SelectedTab::Headers.as_str(), "Headers");
    assert_eq!(SelectedTab::Auth.as_str(), "Auth");
    assert_eq!(SelectedTab::Query.title(), "  Query  ");
    assert_eq!(SelectedTab::Headers.title(), "  Headers  ");
}

#[test]
fn arrow_presses_move_the_selection_by_one_and_clamp() {
    let mut request = Request::new();
    assert_eq!(request.selected_tab(), SelectedTab::Query);
    let presses = [
        (KeyCode::Left, 0),
        (KeyCode::Right, 1),
        (KeyCode::Right, 2),
        (KeyCode::Right, 3),
        (KeyCode::Right, 3),
        (KeyCode::Right, 3),
        (KeyCode::Left, 2),
        (KeyCode::Left, 1),
        (KeyCode::Left, 0),
        (KeyCode::Left, 0),
    ];
    for (code, expected) in presses {
        assert_eq!(request.handle_key_event(KeyEvent::press(code)), None);
        assert_eq!(request.selected_tab().index(), expected);
    }
}

#[test]
fn a_long_walk_never_leaves_the_bar() {
    let mut request = Request::new();
    let mut previous = request.selected_tab().index();
    let mut seed: u32 = 12345;
    for _ in 0..1000 {
        seed = seed.wrapping_mul(1103515245).wrapping_add(12345);
        let right = (seed >> 16) & 1 == 1;
        let code = if right { KeyCode::Right } else { KeyCode::Left };
        request.handle_key_event(KeyEvent::press(code));
        let now = request.selected_tab().index();
        assert!(now < SelectedTab::COUNT);
        let expected = if right { (previous + 1).min(3) } else { previous.saturating_sub(1) };
        assert_eq!(now, expected);
        previous = now;
    }
}

#[test]
fn only_presses_of_left_and_right_move_the_selection() {
    let mut request = Request::new();
    request.next_tab();
    assert_eq!(request.selected_tab(), SelectedTab::Body);
    for key in [
        release(KeyCode::Right),
        release(KeyCode::Left),
        KeyEvent { code: KeyCode::Right, modifiers: KeyModifiers::none(), kind: KeyEventKind::Repeat },
        KeyEvent::press(KeyCode::Up),
        KeyEvent::press(KeyCode::Enter),
        KeyEvent::press(KeyCode::Char('l')),
        KeyEvent::press(KeyCode::Tab),
    ] {
        assert_eq!(request.handle_key_event(key), None);
        assert_eq!(request.selected_tab(), SelectedTab::Body);
    }
    let shifted = KeyEvent::new(
        KeyCode::Right,
        KeyModifiers { shift: true, control: false, alt: false },
    );
    request.handle_key_event(shifted);
    assert_eq!(request.selected_tab(), SelectedTab::Headers);
    request.previous_tab();
    assert_eq!(request.selected_tab(), SelectedTab::Body);
}

#[test]
fn the_panel_ignores_the_pointer_and_broadcasts() {
    let mut request = Request::default();
    request.next_tab();
    let click = MouseEvent {
        kind: MouseEventKind::Down(MouseButton::Left),
        column: 1,
        row: 0,
        modifiers: KeyModifiers::none(),
    };
    assert_eq!(request.handle_mouse_event(click), None);
    assert_eq!(request.update(Action::Tick), None);
    assert_eq!(request.update(Action::Quit), None);
    assert_eq!(request.selected_tab(), SelectedTab::Body);
}

#[test]
fn the_panel_keeps_what_it_is_given_last() {
    let mut request = Request::new();
    assert!(request.action_sender().is_none());
    assert_eq!(request.config(), &Config::new());
    let (first, mut first_rx) = tokio::sync::mpsc::unbounded_channel::<Action>();
    let (second, mut second_rx) = tokio::sync::mpsc::unbounded_channel::<Action>();
    request.register_action_handler(first);
    request.register_action_handler(second);
    request.action_sender().as_ref().unwrap().send(Action::Tick).unwrap();
    assert_eq!(second_rx.try_recv().unwrap(), Action::Tick);
    assert!(first_rx.try_recv().is_err());

    let mut config = Config::new();
    config.bind(papirus::app::Mode::Request, KeyCode::Char('q'), KeyModifiers::none(), Action::Quit);
    request.register_config_handler(config.clone());
    assert_eq!(request.config(), &config);
    request.register_config_handler(Config::new());
    assert_eq!(request.config(), &Config::new());
}

#[test]
fn the_panel_is_laid_out_in_three_rows() {
    let mut request = Request::new();
    request.next_tab();
    request.next_tab();
    let frame = request.draw(Rect::new(4, 5, 40, 19));
    assert_eq!(
        frame,
        RequestFrame {
            header_area: Rect::new(4, 5, 40, 1),
            body_area: Rect::new(4, 6, 40, 17),
            footer_area: Rect::new(4, 23, 40, 1),
            selected: SelectedTab::Headers,
        }
    );
    assert_eq!(request.selected_tab(), SelectedTab::Headers);
}
