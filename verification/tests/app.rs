use papirus::action::Action;
use papirus::app::{App, Effect, LoopState, Mode};
use papirus::components::home::ResponseState;
use papirus::components::request::SelectedTab;
use papirus::config::Config;
use papirus::event::{KeyCode, KeyEvent, KeyModifiers, MouseButton, MouseEvent, MouseEventKind};
use papirus::geometry::Rect;
use papirus::regions::Region;
use papirus::transport::{completion, HttpResponse, RequestSpec};
use papirus::types::HttpMethod;

fn down(column: u16, row: u16) -> MouseEvent {
    MouseEvent {
        kind: MouseEventKind::Down(MouseButton::Left),
        column,
        row,
        modifiers: KeyModifiers::none(),
    }
}

fn bindings() -> Config {
    let mut config = Config::new();
    config.bind(Mode::Home, KeyCode::Char('q'), KeyModifiers::none(), Action::Quit);
    config.bind(
        Mode::Home,
        KeyCode::Char('z'),
        KeyModifiers { shift: false, control: true, alt: false },
        Action::Suspend,
    );
    config
}

fn running(width: u16, height: u16) -> App {
    let mut app = App::new(width, height);
    let (tx, _rx) = tokio::sync::mpsc::unbounded_channel::<Action>();
    app.start(tx, bindings());
    assert!(app.is_running());
    app
}

fn painted(effect: &Effect) -> papirus::components::home::HomeFrame {
    match effect {
        Effect::Paint(frame) => *frame,
        other => panic!("expected a frame to be painted, got {:?}", other),
    }
}

fn press(app: &mut App, code: KeyCode) -> Vec<Effect> {
    app.step(Action::Key(KeyEvent::press(code)))
}

#[test]
fn a_new_application_is_not_started() {
    let app = App::new(80, 24);
    assert_eq!(app.state(), LoopState::Initializing);
    assert!(!app.is_running());
    assert!(!app.should_quit());
    assert_eq!(app.size(), (80, 24));
    assert_eq!(app.ticks(), 0);
    assert_eq!(app.home().mode(), Mode::Home);
    assert!(app.home().regions().is_empty());
}

#[test]
fn nothing_is_dispatched_before_the_start() {
    let mut app = App::new(80, 24);
    for action in [
        Action::Tick,
        Action::Render,
        Action::Resize(100, 30),
        Action::Key(KeyEvent::press(KeyCode::Char('q'))),
        Action::Mouse(down(10, 3)),
        Action::Suspend,
        Action::Resume,
        Action::ClearScreen,
        Action::FocusChanged(Mode::Url),
        Action::RequestFailed { message: "x".into() },
    ] {
        assert_eq!(app.step(action), vec![]);
        assert_eq!(app.state(), LoopState::Initializing);
        assert_eq!(app.size(), (80, 24));
        assert_eq!(app.ticks(), 0);
        assert_eq!(app.home().mode(), Mode::Home);
        assert_eq!(app.home().response(), &ResponseState::Idle);
    }
    assert_eq!(app.step(Action::Quit), vec![Effect::Stop]);
    assert!(app.should_quit());
}

#[test]
fn the_start_takes_the_terminal_and_paints_the_first_frame() {
    let mut app = App::new(80, 24);
    let (tx, mut rx) = tokio::sync::mpsc::unbounded_channel::<Action>();
    let effects = app.start(tx, bindings());
    assert_eq!(effects.len(), 2);
    assert_eq!(effects[0], Effect::EnterTerminal);
    let frame = painted(&effects[1]);
    assert_eq!(frame.url_area, Rect::new(0, 2, 80, 3));
    assert_eq!(frame.request_area, Rect::new(0, 5, 40, 19));
    assert_eq!(app.state(), LoopState::Running);
    assert_eq!(app.home().drawn_area(), Some(Rect::new(0, 0, 80, 24)));
    assert_eq!(app.home().regions().len(), 2);
    assert_eq!(app.home().config(), &bindings());
    assert_eq!(app.home().request().config(), &bindings());
    app.home().action_sender().as_ref().unwrap().send(Action::Tick).unwrap();
    assert_eq!(rx.try_recv().unwrap(), Action::Tick);

    let (again, _rx) = tokio::sync::mpsc::unbounded_channel::<Action>();
    assert_eq!(app.start(again, Config::new()), vec![]);
    assert_eq!(app.home().config(), &bindings());
    assert_eq!(app.state(), LoopState::Running);
}

#[test]
fn quit_ends_the_loop_and_nothing_is_dispatched_afterwards() {
    let mut app = running(80, 24);
    assert_eq!(app.step(Action::Quit), vec![Effect::Stop]);
    assert_eq!(app.state(), LoopState::Exiting);
    assert!(app.should_quit());
    for action in [
        Action::Tick,
        Action::Render,
        Action::Resume,
        Action::Quit,
        Action::Resize(1, 1),
        Action::Mouse(down(10, 3)),
        Action::ResponseReceived { status: 200, body: "late".into(), elapsed_ms: 1 },
    ] {
        assert_eq!(app.step(action), vec![]);
        assert_eq!(app.state(), LoopState::Exiting);
        assert_eq!(app.ticks(), 0);
        assert_eq!(app.size(), (80, 24));
        assert_eq!(app.home().mode(), Mode::Home);
        assert_eq!(app.home().response(), &ResponseState::Idle);
    }
}

#[test]
fn a_bound_key_goes_back_on_the_bus() {
    let mut app = running(80, 24);
    assert_eq!(press(&mut app, KeyCode::Char('q')), vec![Effect::Emit(Action::Quit)]);
    assert!(app.is_running());
    assert_eq!(app.step(Action::Quit), vec![Effect::Stop]);
    assert!(app.should_quit());
}

#[test]
fn an_unbound_key_at_home_does_nothing() {
    let mut app = running(80, 24);
    assert_eq!(press(&mut app, KeyCode::Char('/')), vec![]);
    assert_eq!(app.home().mode(), Mode::Home);
    assert!(app.is_running());
}

#[test]
fn a_typed_url_is_scheduled_once() {
    let mut app = running(80, 24);
    assert_eq!(app.step(Action::Mouse(down(10, 3))), vec![]);
    assert_eq!(app.home().mode(), Mode::Url);
    for c in "http://x".chars() {
        assert_eq!(press(&mut app, KeyCode::Char(c)), vec![]);
    }
    let request = RequestSpec::new(HttpMethod::GET, "http://x".into(), String::new());
    let effects = press(&mut app, KeyCode::Enter);
    assert_eq!(effects, vec![Effect::Emit(Action::SendRequest(request.clone()))]);
    assert_eq!(app.home().response(), &ResponseState::Idle);

    let mut scheduled = Vec::new();
    for effect in effects {
        match effect {
            Effect::Emit(action) => scheduled.extend(app.step(action)),
            other => panic!("unexpected effect {:?}", other),
        }
    }
    assert_eq!(scheduled, vec![Effect::Schedule(request)]);
    assert_eq!(app.home().response(), &ResponseState::Pending);
    assert!(app.is_running());
}

#[test]
fn ticks_and_frames_go_on_while_a_request_is_in_flight() {
    let mut app = running(80, 24);
    let request = RequestSpec::new(HttpMethod::GET, "http://slow".into(), String::new());
    app.step(Action::SendRequest(request));
    assert_eq!(app.home().response(), &ResponseState::Pending);
    for n in 1..=50u64 {
        assert_eq!(app.step(Action::Tick), vec![]);
        assert_eq!(app.ticks(), n);
        let effects = app.step(Action::Render);
        assert_eq!(effects.len(), 1);
        painted(&effects[0]);
        assert_eq!(press(&mut app, KeyCode::Char('/')), vec![]);
        assert!(app.is_running());
        assert_eq!(app.home().response(), &ResponseState::Pending);
    }
    let done = completion(Ok(HttpResponse::new(200, "ok".into())), 500);
    assert_eq!(app.step(done), vec![]);
    assert_eq!(
        app.home().response(),
        &ResponseState::Received { status: 200, body: "ok".into(), elapsed_ms: 500 }
    );
    assert_eq!(app.ticks(), 50);
}

#[test]
fn a_transport_error_is_shown_and_the_loop_runs_on() {
    let mut app = running(80, 24);
    app.step(Action::SendRequest(RequestSpec::new(HttpMethod::GET, "http://x".into(), String::new())));
    let failed = completion(Err("connection refused".into()), 7);
    assert_eq!(failed, Action::RequestFailed { message: "connection refused".into() });
    assert_eq!(app.step(failed), vec![]);
    assert_eq!(app.state(), LoopState::Running);
    assert_eq!(
        app.home().response(),
        &ResponseState::Failed { message: "connection refused".into() }
    );
    assert_eq!(app.step(Action::Tick), vec![]);
    assert_eq!(app.ticks(), 1);
}

#[test]
fn a_resize_regenerates_the_regions_before_the_next_click() {
    let mut app = running(80, 24);
    assert_eq!(app.step(Action::Mouse(down(100, 3))), vec![]);
    assert_eq!(app.home().mode(), Mode::Home);

    let effects = app.step(Action::Resize(120, 40));
    assert_eq!(effects.len(), 2);
    assert_eq!(effects[0], Effect::Resize(120, 40));
    let frame = painted(&effects[1]);
    assert_eq!(frame.url_area, Rect::new(0, 2, 120, 3));
    assert_eq!(frame.request_area, Rect::new(0, 5, 60, 35));
    assert_eq!(app.size(), (120, 40));
    assert_eq!(app.home().drawn_area(), Some(Rect::new(0, 0, 120, 40)));
    assert_eq!(
        app.home().regions().entries(),
        vec![
            Region { mode: Mode::Url, area: Rect::new(0, 2, 120, 3) },
            Region { mode: Mode::Request, area: Rect::new(0, 5, 60, 35) },
        ]
    );

    assert_eq!(app.step(Action::Mouse(down(100, 3))), vec![]);
    assert_eq!(app.home().mode(), Mode::Url);
    assert_eq!(app.step(Action::Mouse(down(50, 30))), vec![]);
    assert_eq!(app.home().mode(), Mode::Request);

    app.step(Action::Resize(40, 10));
    assert_eq!(app.step(Action::Mouse(down(50, 3))), vec![]);
    assert_eq!(app.home().mode(), Mode::Request);
    assert_eq!(app.step(Action::Mouse(down(30, 3))), vec![]);
    assert_eq!(app.home().mode(), Mode::Url);
}

#[test]
fn render_paints_one_frame_of_the_present_size() {
    let mut app = running(100, 30);
    let effects = app.step(Action::Render);
    assert_eq!(effects.len(), 1);
    let frame = painted(&effects[0]);
    assert_eq!(frame.title_area, Rect::new(0, 0, 100, 2));
    assert_eq!(frame.response_area, Rect::new(50, 5, 50, 25));
    assert_eq!(frame.mode, Mode::Home);
    assert_eq!(app.ticks(), 0);
    assert_eq!(app.step(Action::ClearScreen), vec![Effect::ClearScreen]);
    assert_eq!(app.step(Action::Resume), vec![]);
    assert!(app.is_running());
}

#[test]
fn suspend_gives_the_terminal_back_until_resume() {
    let mut app = running(80, 24);
    assert_eq!(
        app.step(Action::Key(KeyEvent::new(
            KeyCode::Char('z'),
            KeyModifiers { shift: false, control: true, alt: false }
        ))),
        vec![Effect::Emit(Action::Suspend)]
    );
    assert_eq!(app.step(Action::Suspend), vec![Effect::LeaveTerminal]);
    assert_eq!(app.state(), LoopState::Suspended);

    for action in [
        Action::Render,
        Action::ClearScreen,
        Action::Suspend,
        Action::Key(KeyEvent::press(KeyCode::Char('q'))),
        Action::Mouse(down(10, 3)),
    ] {
        assert_eq!(app.step(action), vec![]);
        assert_eq!(app.state(), LoopState::Suspended);
        assert_eq!(app.home().mode(), Mode::Home);
    }
    assert_eq!(app.step(Action::Tick), vec![]);
    assert_eq!(app.ticks(), 1);
    let request = RequestSpec::new(HttpMethod::GET, "http://x".into(), String::new());
    assert_eq!(app.step(Action::SendRequest(request.clone())), vec![Effect::Schedule(request)]);
    assert_eq!(app.step(Action::RequestFailed { message: "down".into() }), vec![]);
    assert_eq!(app.home().response(), &ResponseState::Failed { message: "down".into() });

    assert_eq!(app.step(Action::Resize(120, 40)), vec![]);
    assert_eq!(app.size(), (120, 40));
    assert_eq!(app.home().drawn_area(), Some(Rect::new(0, 0, 80, 24)));

    let effects = app.step(Action::Resume);
    assert_eq!(effects.len(), 3);
    assert_eq!(effects[0], Effect::EnterTerminal);
    assert_eq!(effects[1], Effect::ClearScreen);
    assert_eq!(painted(&effects[2]).url_area, Rect::new(0, 2, 120, 3));
    assert_eq!(app.state(), LoopState::Running);
    assert_eq!(app.home().drawn_area(), Some(Rect::new(0, 0, 120, 40)));
    assert_eq!(app.step(Action::Mouse(down(100, 3))), vec![]);
    assert_eq!(app.home().mode(), Mode::Url);
}

#[test]
fn quit_ends_a_suspended_loop() {
    let mut app = running(80, 24);
    app.step(Action::Suspend);
    assert_eq!(app.step(Action::Quit), vec![Effect::Stop]);
    assert!(app.should_quit());
}

#[test]
fn a_change_of_focus_is_broadcast() {
    let mut app = running(80, 24);
    assert_eq!(app.step(Action::FocusChanged(Mode::Request)), vec![]);
    assert_eq!(app.home().mode(), Mode::Request);
    assert_eq!(press(&mut app, KeyCode::Right), vec![]);
    assert_eq!(press(&mut app, KeyCode::Right), vec![]);
    assert_eq!(app.home().request().selected_tab(), SelectedTab::Headers);
    assert_eq!(press(&mut app, KeyCode::Char('q')), vec![]);
    assert!(app.is_running());
}

#[test]
fn every_cell_of_the_screen_gives_the_focus_to_the_mode_of_its_region() {
    for (width, height) in [(80u16, 24u16), (81, 5), (1, 6), (7, 9), (0, 30)] {
        let mut app = running(width, height);
        for row in 0..height + 2 {
            for column in 0..width + 2 {
                app.step(Action::FocusChanged(Mode::Home));
                assert_eq!(app.step(Action::Mouse(down(column, row))), vec![]);
                let expected = if (2..5).contains(&row) && column < width {
                    Mode::Url
                } else if (5..height).contains(&row) && column < (width + 1) / 2 {
                    Mode::Request
                } else {
                    Mode::Home
                };
                assert_eq!(app.home().mode(), expected, "({column}, {row}) of {width}x{height}");
            }
        }
    }
}
