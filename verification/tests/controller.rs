use lazyros::app::{Action, App, AppState, Instruction};
use lazyros::event::{Event, KeyCode, KeyEvent, KeyEventKind, ROSEvent};
use lazyros::pane::{
    create_stylized_block, BlockStyle, BorderKind, FrameColor, PaneManager, PaneType,
};

fn press(code: KeyCode) -> Event {
    Event::Input(KeyEvent::press(code))
}

fn new_node(name: &str) -> Event {
    Event::ROSEvent { event: ROSEvent::NewNode(name.to_string()) }
}

fn new_topic(name: &str, msg_type: &str) -> Event {
    Event::ROSEvent { event: ROSEvent::NewTopic(name.to_string(), msg_type.to_string()) }
}

fn message(text: &str) -> Event {
    Event::ROSEvent { event: ROSEvent::SubscriptionMessage(text.to_string()) }
}

fn app_in(state: AppState) -> App {
    let mut app = App::default();
    match state {
        AppState::Navigation => {}
        AppState::ActivePane => {
            app.handle_event(press(KeyCode::Enter));
        }
        AppState::ShowingInstructions => {
            app.handle_event(press(KeyCode::Char('i')));
        }
        AppState::Exit => {
            app.handle_event(press(KeyCode::Char('q')));
        }
    }
    assert_eq!(app.state(), state);
    app
}

fn topic_names(app: &App) -> Vec<String> {
    app.pane_manager().topics_pane.iter().iter().map(|t| t.name.clone()).collect()
}

fn node_names(app: &App) -> Vec<String> {
    app.pane_manager().node_pane.iter().iter().map(|n| n.name.clone()).collect()
}

#[test]
fn default_app_is_empty_and_navigating() {
    let app = App::default();
    assert_eq!(app.state(), AppState::Navigation);
    assert!(app.is_running());
    assert_eq!(app.instructions().len(), 0);
    assert_eq!(app.pane_manager().node_pane.iter().len(), 0);
    assert_eq!(app.pane_manager().topics_pane.iter().len(), 0);
    assert_eq!(app.pane_manager().details.len(), 0);
    assert_eq!(app.pane_manager().focused_pane, PaneType::NodePane);
}

#[test]
fn new_app_is_empty_and_navigating() {
    let app = App::new();
    assert_eq!(app.state(), AppState::Navigation);
    assert!(app.is_running());
    assert_eq!(app.pane_manager().focused_pane, PaneType::NodePane);
    assert_eq!(app.pane_manager().node_pane.iter().len(), 0);
    assert_eq!(app.pane_manager().node_pane.selected(), None);
    assert_eq!(app.pane_manager().node_pane.selected_column(), None);
    assert_eq!(app.pane_manager().node_pane.scroll_offset(), 0);
    assert_eq!(app.pane_manager().topics_pane.iter().len(), 0);
    assert_eq!(app.pane_manager().topics_pane.selected(), None);
    assert_eq!(app.pane_manager().topics_pane.selected_column(), None);
    assert_eq!(app.pane_manager().details.len(), 0);
    assert_eq!(app.pane_manager().details.text(), "");
}

#[test]
fn new_app_knows_its_key_bindings() {
    let app = App::new();
    let shown: Vec<(KeyCode, String)> =
        app.instructions().iter().map(|i| (i.key_code, i.description.clone())).collect();
    assert_eq!(
        shown,
        vec![
            (KeyCode::Char('q'), "Return to navigation".to_string()),
            (KeyCode::Char('i'), "Toggle instructions".to_string()),
            (KeyCode::Char('j'), "Down".to_string()),
            (KeyCode::Char('k'), "Up".to_string()),
            (KeyCode::Char('h'), "Left".to_string()),
            (KeyCode::Char('l'), "Right".to_string()),
            (KeyCode::Enter, "Focus window".to_string()),
            (KeyCode::Esc, "Escape focused window".to_string()),
        ]
    );
}

#[test]
fn instruction_of_a_character_key() {
    let instruction = Instruction::new('j', "Down");
    assert_eq!(instruction.key_code, KeyCode::Char('j'));
    assert_eq!(instruction.description, "Down");
    assert_eq!(format!("{:?}", instruction.key_code), "Char('j')");
}

#[test]
fn a_new_app_lists_every_node_that_the_graph_reports() {
    let mut app = App::new();
    app.handle_event(new_node("/node3"));
    assert_eq!(node_names(&app), vec!["/node3"]);
    app.handle_event(new_node("/node1"));
    app.handle_event(new_node("/talker"));
    assert_eq!(node_names(&app), vec!["/node3", "/node1", "/talker"]);
    app.handle_event(new_node("/node3"));
    assert_eq!(app.pane_manager().node_pane.iter().len(), 3);
}

#[test]
fn enter_then_esc_returns_to_navigation() {
    let mut app = App::default();
    app.handle_event(press(KeyCode::Enter));
    assert_eq!(app.state(), AppState::ActivePane);
    app.handle_event(press(KeyCode::Esc));
    assert_eq!(app.state(), AppState::Navigation);
}

#[test]
fn q_exits_from_every_state() {
    for state in [
        AppState::Navigation,
        AppState::ActivePane,
        AppState::ShowingInstructions,
        AppState::Exit,
    ] {
        let mut app = app_in(state);
        app.handle_event(press(KeyCode::Char('q')));
        assert_eq!(app.state(), AppState::Exit);
        assert!(!app.is_running());
    }
}

#[test]
fn nothing_is_consumed_after_exit() {
    let mut app = App::default();
    let consumed = app.run(vec![
        new_node("/a"),
        press(KeyCode::Char('q')),
        new_node("/b"),
        press(KeyCode::Enter),
        message("late"),
    ]);
    assert_eq!(consumed, 2);
    assert_eq!(app.state(), AppState::Exit);
    assert_eq!(node_names(&app), vec!["/a"]);
    assert_eq!(app.pane_manager().details.len(), 0);
    let again = app.run(vec![new_node("/c"), press(KeyCode::Char('i'))]);
    assert_eq!(again, 0);
    assert_eq!(app.state(), AppState::Exit);
    assert_eq!(node_names(&app), vec!["/a"]);
}

#[test]
fn no_key_leads_out_of_exit() {
    for code in [
        KeyCode::Enter,
        KeyCode::Esc,
        KeyCode::Char('i'),
        KeyCode::Char('q'),
        KeyCode::Char('l'),
        KeyCode::Down,
        KeyCode::Other,
    ] {
        let mut app = app_in(AppState::Exit);
        app.handle_key_event(KeyEvent::press(code));
        assert_eq!(app.state(), AppState::Exit);
        assert_eq!(app.pane_manager().focused_pane, PaneType::NodePane);
    }
}

#[test]
fn run_consumes_everything_while_running() {
    let mut app = App::default();
    let consumed = app.run(vec![new_node("/a"), Event::Resize(80, 24), message("hi")]);
    assert_eq!(consumed, 3);
    assert_eq!(app.state(), AppState::Navigation);
    assert_eq!(app.run(Vec::new()), 0);
}

#[test]
fn instructions_are_reached_by_i() {
    let mut app = app_in(AppState::Navigation);
    app.handle_event(press(KeyCode::Char('i')));
    assert_eq!(app.state(), AppState::ShowingInstructions);
    let mut app = app_in(AppState::ActivePane);
    app.handle_event(press(KeyCode::Char('i')));
    assert_eq!(app.state(), AppState::ShowingInstructions);
}

#[test]
fn instructions_return_to_navigation_only() {
    let mut app = app_in(AppState::ShowingInstructions);
    app.handle_event(press(KeyCode::Esc));
    assert_eq!(app.state(), AppState::Navigation);
    let mut app = app_in(AppState::ShowingInstructions);
    app.handle_event(press(KeyCode::Char('i')));
    assert_eq!(app.state(), AppState::Navigation);
    let mut app = App::default();
    app.run(vec![press(KeyCode::Enter), press(KeyCode::Char('i')), press(KeyCode::Esc)]);
    assert_eq!(app.state(), AppState::Navigation);
    let mut app = App::default();
    app.run(vec![press(KeyCode::Enter), press(KeyCode::Char('i')), press(KeyCode::Char('i'))]);
    assert_eq!(app.state(), AppState::Navigation);
}

#[test]
fn other_keys_leave_the_instructions_on_show() {
    for code in [
        KeyCode::Enter,
        KeyCode::Left,
        KeyCode::Right,
        KeyCode::Up,
        KeyCode::Down,
        KeyCode::Char('l'),
        KeyCode::Char('n'),
        KeyCode::Other,
    ] {
        let mut app = app_in(AppState::ShowingInstructions);
        app.handle_event(new_node("/a"));
        app.handle_event(press(code));
        assert_eq!(app.state(), AppState::ShowingInstructions);
        assert_eq!(app.pane_manager().focused_pane, PaneType::NodePane);
        assert_eq!(app.pane_manager().node_pane.selected(), None);
    }
}

#[test]
fn focus_cycles_forward_with_l() {
    let mut app = App::default();
    assert_eq!(app.state(), AppState::Navigation);
    assert_eq!(app.pane_manager().focused_pane, PaneType::NodePane);
    app.handle_event(press(KeyCode::Char('l')));
    assert_eq!(app.pane_manager().focused_pane, PaneType::TopicsPane);
    app.handle_event(press(KeyCode::Char('l')));
    assert_eq!(app.pane_manager().focused_pane, PaneType::DetailsPane);
    app.handle_event(press(KeyCode::Char('l')));
    assert_eq!(app.pane_manager().focused_pane, PaneType::NodePane);
    assert_eq!(app.state(), AppState::Navigation);
}

#[test]
fn focus_cycles_backward_with_h() {
    let mut app = App::default();
    app.handle_event(press(KeyCode::Char('h')));
    assert_eq!(app.pane_manager().focused_pane, PaneType::DetailsPane);
    app.handle_event(press(KeyCode::Left));
    assert_eq!(app.pane_manager().focused_pane, PaneType::TopicsPane);
    app.handle_event(press(KeyCode::Left));
    assert_eq!(app.pane_manager().focused_pane, PaneType::NodePane);
    app.handle_event(press(KeyCode::Right));
    assert_eq!(app.pane_manager().focused_pane, PaneType::TopicsPane);
}

#[test]
fn focus_jumps_to_the_named_pane() {
    let mut manager = PaneManager::new();
    manager.handle_key_event(KeyEvent::press(KeyCode::Char('d')));
    assert_eq!(manager.focused_pane, PaneType::DetailsPane);
    manager.handle_key_event(KeyEvent::press(KeyCode::Char('t')));
    assert_eq!(manager.focused_pane, PaneType::TopicsPane);
    manager.handle_key_event(KeyEvent::press(KeyCode::Char('n')));
    assert_eq!(manager.focused_pane, PaneType::NodePane);
    manager.handle_key_event(KeyEvent::press(KeyCode::Up));
    assert_eq!(manager.focused_pane, PaneType::NodePane);
    manager.handle_key_event(KeyEvent { code: KeyCode::Char('t'), kind: KeyEventKind::Release });
    assert_eq!(manager.focused_pane, PaneType::NodePane);
}

#[test]
fn next_and_previous_pane_undo_each_other() {
    let mut manager = PaneManager::new();
    assert_eq!(PaneType::default(), PaneType::NodePane);
    manager.next_pane();
    assert_eq!(manager.focused_pane, PaneType::TopicsPane);
    manager.previous_pane();
    assert_eq!(manager.focused_pane, PaneType::NodePane);
    manager.previous_pane();
    assert_eq!(manager.focused_pane, PaneType::DetailsPane);
    manager.next_pane();
    assert_eq!(manager.focused_pane, PaneType::NodePane);
}

#[test]
fn enter_down_down_esc_selects_the_second_node() {
    let mut app = App::default();
    app.run(vec![new_node("/a"), new_node("/b"), new_node("/c")]);
    assert_eq!(app.pane_manager().node_pane.iter().len(), 3);
    assert_eq!(app.pane_manager().node_pane.selected(), None);
    assert_eq!(app.pane_manager().focused_pane, PaneType::NodePane);
    let consumed = app.run(vec![
        press(KeyCode::Enter),
        press(KeyCode::Down),
        press(KeyCode::Down),
        press(KeyCode::Esc),
    ]);
    assert_eq!(consumed, 4);
    assert_eq!(app.pane_manager().node_pane.selected(), Some(1));
    assert_eq!(app.state(), AppState::Navigation);
}

#[test]
fn active_keys_go_to_the_focused_pane() {
    let mut app = App::default();
    app.run(vec![
        new_node("/a"),
        new_node("/b"),
        new_topic("/x", "T"),
        new_topic("/y", "T"),
        new_topic("/z", "T"),
        press(KeyCode::Char('l')),
        press(KeyCode::Enter),
        press(KeyCode::Up),
        press(KeyCode::Up),
        press(KeyCode::Right),
    ]);
    assert_eq!(app.state(), AppState::ActivePane);
    assert_eq!(app.pane_manager().focused_pane, PaneType::TopicsPane);
    assert_eq!(app.pane_manager().topics_pane.selected(), Some(2));
    assert_eq!(app.pane_manager().topics_pane.selected_column(), Some(0));
    assert_eq!(app.pane_manager().topics_pane.scroll_offset(), 2);
    assert_eq!(app.pane_manager().node_pane.selected(), None);
    assert_eq!(app.pane_manager().node_pane.selected_column(), None);
}

#[test]
fn the_details_pane_ignores_active_keys() {
    let mut app = App::default();
    app.run(vec![
        new_node("/a"),
        new_topic("/x", "T"),
        press(KeyCode::Char('d')),
        press(KeyCode::Enter),
        press(KeyCode::Down),
        press(KeyCode::Right),
        press(KeyCode::Char('l')),
    ]);
    assert_eq!(app.state(), AppState::ActivePane);
    assert_eq!(app.pane_manager().focused_pane, PaneType::DetailsPane);
    assert_eq!(app.pane_manager().node_pane.selected(), None);
    assert_eq!(app.pane_manager().topics_pane.selected(), None);
    assert_eq!(app.pane_manager().topics_pane.selected_column(), None);
}

#[test]
fn navigation_keys_do_not_move_the_selection() {
    let mut app = App::default();
    app.run(vec![new_node("/a"), new_node("/b"), press(KeyCode::Down), press(KeyCode::Char('j'))]);
    assert_eq!(app.state(), AppState::Navigation);
    assert_eq!(app.pane_manager().node_pane.selected(), None);
}

#[test]
fn released_keys_are_ignored() {
    for code in [KeyCode::Char('q'), KeyCode::Enter, KeyCode::Char('i'), KeyCode::Char('l')] {
        let mut app = App::default();
        app.handle_key_event(KeyEvent { code, kind: KeyEventKind::Release });
        assert_eq!(app.state(), AppState::Navigation);
        assert_eq!(app.pane_manager().focused_pane, PaneType::NodePane);
        app.handle_key_event(KeyEvent { code, kind: KeyEventKind::Repeat });
        assert_eq!(app.state(), AppState::Navigation);
        assert_eq!(app.pane_manager().focused_pane, PaneType::NodePane);
    }
}

#[test]
fn distinct_topics_are_all_listed() {
    let mut app = App::default();
    let names = ["/a", "/b", "/c", "/d", "/e"];
    for (count, name) in names.iter().enumerate() {
        app.handle_event(new_topic(name, "T"));
        assert_eq!(app.pane_manager().topics_pane.iter().len(), count + 1);
    }
    assert_eq!(topic_names(&app), vec!["/a", "/b", "/c", "/d", "/e"]);
}

#[test]
fn repeated_topics_never_lengthen_the_pane() {
    let mut app = App::default();
    let reports = ["/a", "/b", "/a", "/c", "/b", "/a", "/c", "/c"];
    let mut seen: Vec<&str> = Vec::new();
    for name in reports {
        let before = app.pane_manager().topics_pane.iter().len();
        app.handle_event(new_topic(name, "T"));
        let after = app.pane_manager().topics_pane.iter().len();
        if seen.contains(&name) {
            assert_eq!(after, before);
        } else {
            assert_eq!(after, before + 1);
            seen.push(name);
        }
    }
    assert_eq!(app.pane_manager().topics_pane.iter().len(), 3);
    assert_eq!(topic_names(&app), vec!["/a", "/b", "/c"]);
}

#[test]
fn a_new_topic_has_no_subscribers_counted() {
    let mut app = App::default();
    app.handle_ros_events(ROSEvent::NewTopic("/chatter".to_string(), "std_msgs/msg/String".to_string()));
    let topics = app.pane_manager().topics_pane.iter();
    assert_eq!(topics.len(), 1);
    assert_eq!(topics[0].name, "/chatter");
    assert_eq!(topics[0].msg_type, "std_msgs/msg/String");
    assert_eq!(topics[0].num_subscribers, 0);
    assert_eq!(
        app.pane_manager().topics_pane.get_rows(),
        vec![vec!["/chatter".to_string(), "std_msgs/msg/String".to_string(), "0".to_string()]]
    );
}

#[test]
fn graph_events_apply_in_every_state() {
    for state in [AppState::Navigation, AppState::ActivePane, AppState::ShowingInstructions] {
        let mut app = app_in(state);
        app.handle_event(new_node("/n"));
        app.handle_event(new_topic("/t", "T"));
        app.handle_event(message("Hello world!"));
        assert_eq!(app.state(), state);
        assert_eq!(node_names(&app), vec!["/n"]);
        assert_eq!(topic_names(&app), vec!["/t"]);
        assert_eq!(app.pane_manager().details.text(), "Hello world!\n");
    }
}

#[test]
fn messages_are_logged_in_order() {
    let mut app = App::default();
    app.run(vec![message("Subscribing to /topic"), message("one"), message("one"), message("two")]);
    assert_eq!(
        app.pane_manager().details.lines(),
        &vec![
            "Subscribing to /topic".to_string(),
            "one".to_string(),
            "one".to_string(),
            "two".to_string()
        ]
    );
    assert_eq!(app.pane_manager().details.text(), "Subscribing to /topic\none\none\ntwo\n");
}

#[test]
fn every_event_asks_for_one_redraw() {
    let mut app = App::default();
    assert_eq!(app.handle_event(press(KeyCode::Char('l'))), Action::Redraw);
    assert_eq!(app.handle_event(new_node("/a")), Action::Redraw);
    assert_eq!(app.handle_event(message("m")), Action::Redraw);
    assert_eq!(app.handle_event(Event::Resize(120, 40)), Action::ClearAndRedraw);
    assert_eq!(
        app.handle_event(Event::Input(KeyEvent { code: KeyCode::Other, kind: KeyEventKind::Release })),
        Action::Redraw
    );
}

#[test]
fn a_resize_changes_nothing() {
    let mut app = App::default();
    app.run(vec![new_node("/a"), new_node("/b"), press(KeyCode::Enter), press(KeyCode::Down)]);
    app.handle_event(Event::Resize(10, 5));
    assert_eq!(app.state(), AppState::ActivePane);
    assert_eq!(app.pane_manager().node_pane.selected(), Some(0));
    assert_eq!(node_names(&app), vec!["/a", "/b"]);
    assert_eq!(app.pane_manager().focused_pane, PaneType::NodePane);
}

#[test]
fn a_mode_key_leaves_the_panes_alone() {
    let mut app = App::default();
    app.run(vec![
        new_node("/a"),
        new_node("/b"),
        press(KeyCode::Char('l')),
        press(KeyCode::Enter),
        press(KeyCode::Char('i')),
        press(KeyCode::Esc),
        press(KeyCode::Char('q')),
    ]);
    assert_eq!(app.state(), AppState::Exit);
    assert_eq!(app.pane_manager().focused_pane, PaneType::TopicsPane);
    assert_eq!(app.pane_manager().node_pane.selected(), None);
    assert_eq!(node_names(&app), vec!["/a", "/b"]);
}

#[test]
fn frame_follows_focus_and_mode() {
    let mut app = App::default();
    app.handle_event(press(KeyCode::Char('l')));
    assert_eq!(
        app.block_style(PaneType::TopicsPane),
        BlockStyle { border: BorderKind::Rounded, color: FrameColor::Blue }
    );
    assert_eq!(
        app.block_style(PaneType::NodePane),
        BlockStyle { border: BorderKind::Rounded, color: FrameColor::White }
    );
    app.handle_event(press(KeyCode::Enter));
    assert_eq!(
        app.block_style(PaneType::TopicsPane),
        BlockStyle { border: BorderKind::Thick, color: FrameColor::Green }
    );
    assert_eq!(
        app.block_style(PaneType::DetailsPane),
        BlockStyle { border: BorderKind::Rounded, color: FrameColor::White }
    );
}

#[test]
fn frame_of_a_pane() {
    assert_eq!(
        create_stylized_block(true, true),
        BlockStyle { border: BorderKind::Thick, color: FrameColor::Green }
    );
    assert_eq!(
        create_stylized_block(true, false),
        BlockStyle { border: BorderKind::Rounded, color: FrameColor::Blue }
    );
    assert_eq!(
        create_stylized_block(false, true),
        BlockStyle { border: BorderKind::Rounded, color: FrameColor::White }
    );
    assert_eq!(
        create_stylized_block(false, false),
        BlockStyle { border: BorderKind::Rounded, color: FrameColor::White }
    );
}
