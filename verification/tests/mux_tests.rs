use ros2_teleop::keys::{classify, reader_action, KeyEvent, KeyPress, ReaderAction, TermKey};
use ros2_teleop::mux::{step, MuxAction, MuxEvent, MuxState};
use ros2_teleop::twist::decode_twist;

const LINEAR_SCALE: f64 = 2.0;
const ANGULAR_SCALE: f64 = 3.0;

fn run(events: Vec<MuxEvent>) -> (MuxState, Vec<MuxAction>) {
    let mut state = MuxState::Running;
    let mut actions = Vec::new();
    for e in events {
        let (next, action) = step(state, e, LINEAR_SCALE.to_bits(), ANGULAR_SCALE.to_bits());
        state = next;
        actions.push(action);
    }
    (state, actions)
}

fn published_pair(action: &MuxAction) -> (f64, f64) {
    let bytes = match action {
        MuxAction::Publish(b) => b,
        MuxAction::PublishStop(b) => b,
        other => panic!("expected a publish, got {:?}", other),
    };
    let t = decode_twist(bytes).unwrap();
    (f64::from_bits(t.linear_x), f64::from_bits(t.angular_z))
}

#[test]
fn quit_signals_stop_the_reader() {
    for p in [
        KeyPress { key: TermKey::Esc, ctrl: false },
        KeyPress { key: TermKey::Char('q'), ctrl: false },
        KeyPress { key: TermKey::Char('c'), ctrl: true },
    ] {
        assert_eq!(classify(p), KeyEvent::Quit);
        assert_eq!(reader_action(p), ReaderAction::Stop);
    }
}

#[test]
fn plain_c_is_not_a_quit_signal() {
    let p = KeyPress { key: TermKey::Char('c'), ctrl: false };
    assert_eq!(classify(p), KeyEvent::Other);
    assert_eq!(reader_action(p), ReaderAction::Ignore);
}

#[test]
fn arrows_and_space_are_relayed() {
    for (key, want) in [
        (TermKey::Up, KeyEvent::ArrowUp),
        (TermKey::Down, KeyEvent::ArrowDown),
        (TermKey::Left, KeyEvent::ArrowLeft),
        (TermKey::Right, KeyEvent::ArrowRight),
        (TermKey::Char(' '), KeyEvent::Space),
    ] {
        assert_eq!(reader_action(KeyPress { key, ctrl: false }), ReaderAction::Relay(want));
    }
}

#[test]
fn other_keys_are_dropped() {
    for key in [TermKey::Char('x'), TermKey::Other] {
        assert_eq!(reader_action(KeyPress { key, ctrl: false }), ReaderAction::Ignore);
    }
}

#[test]
fn session_up_left_space_quit() {
    let (state, actions) = run(vec![
        MuxEvent::Key(KeyEvent::ArrowUp),
        MuxEvent::Key(KeyEvent::ArrowLeft),
        MuxEvent::Key(KeyEvent::Space),
        MuxEvent::ChannelClosed,
    ]);
    assert_eq!(state, MuxState::Stopping);
    assert_eq!(actions.len(), 4);
    assert_eq!(published_pair(&actions[0]), (2.0, 0.0));
    assert_eq!(published_pair(&actions[1]), (0.0, 3.0));
    assert_eq!(published_pair(&actions[2]), (0.0, 0.0));
    assert_eq!(published_pair(&actions[3]), (0.0, 0.0));
    assert!(matches!(actions[3], MuxAction::PublishStop(_)));
    let renders = actions.iter().filter(|a| matches!(a, MuxAction::Render(_))).count();
    assert_eq!(renders, 0);
    let stops = actions.iter().filter(|a| matches!(a, MuxAction::PublishStop(_))).count();
    assert_eq!(stops, 1);
}

#[test]
fn shutdown_completes_once_the_stop_is_out() {
    let (state, actions) = run(vec![MuxEvent::ChannelClosed, MuxEvent::ShutdownComplete]);
    assert_eq!(state, MuxState::Stopped);
    assert!(matches!(actions[0], MuxAction::PublishStop(_)));
    assert_eq!(actions[1], MuxAction::Idle);
}

#[test]
fn nothing_happens_after_stopping() {
    let (state, actions) = run(vec![
        MuxEvent::ChannelClosed,
        MuxEvent::Key(KeyEvent::ArrowUp),
        MuxEvent::Bus(vec![1, 2, 3]),
        MuxEvent::ChannelClosed,
    ]);
    assert_eq!(state, MuxState::Stopping);
    assert!(actions[1..].iter().all(|a| *a == MuxAction::Idle));
}

#[test]
fn bad_payload_warns_once_and_keeps_running() {
    let good = {
        let rec = (10i32, 500u32, 2u8, "nav".to_string(), "starting".to_string(),
                   String::new(), String::new(), 1u32);
        cdr::serialize::<_, _, cdr::CdrLe>(&rec, cdr::Infinite).unwrap()
    };
    let truncated = good[..good.len() - 1].to_vec();
    let (state, actions) = run(vec![MuxEvent::Bus(truncated)]);
    assert_eq!(state, MuxState::Running);
    assert_eq!(actions, vec![MuxAction::WarnDecode]);
}

#[test]
fn good_payload_renders_the_line() {
    let rec = (10i32, 500u32, 2u8, "nav".to_string(), "starting".to_string(),
               "node.cpp".to_string(), "main".to_string(), 1u32);
    let payload = cdr::serialize::<_, _, cdr::CdrLe>(&rec, cdr::Infinite).unwrap();
    let (state, actions) = run(vec![MuxEvent::Bus(payload)]);
    assert_eq!(state, MuxState::Running);
    match &actions[0] {
        MuxAction::Render(line) => {
            assert_eq!(String::from_utf8(line.clone()).unwrap(), "[10.500] [nav]: starting");
        },
        other => panic!("expected a render, got {:?}", other),
    }
}

#[test]
fn quit_key_in_the_loop_is_ignored() {
    let (state, actions) = run(vec![MuxEvent::Key(KeyEvent::Other), MuxEvent::Key(KeyEvent::Quit)]);
    assert_eq!(state, MuxState::Running);
    assert!(actions.iter().all(|a| *a == MuxAction::Idle));
}
