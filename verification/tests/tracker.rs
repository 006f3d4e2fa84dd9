use teleop_core::tracker::{Control, Propagation, Tracker, Transition};

#[test]
fn press_then_release_fires_one_engage_and_one_disengage() {
    let mut t = Tracker::new();

    let pressed = t.handle_edge(Control::Forward, Transition::Pressed);
    let cmd = pressed.command.expect("pressed edge must fire a command");
    assert_eq!(cmd.topic, "Vehicle/Teleop/EnginePower");
    assert_eq!(cmd.payload, b"10".to_vec());
    assert_eq!(pressed.propagation, Propagation::Stop);

    let released = t.handle_edge(Control::Forward, Transition::Released);
    let cmd = released.command.expect("released edge must fire a command");
    assert_eq!(cmd.topic, "Vehicle/Teleop/EnginePower");
    assert_eq!(cmd.payload, b"0".to_vec());
    assert!(!t.forward_active);
}

#[test]
fn unmapped_controls_never_publish() {
    let mut t = Tracker::new();
    for control in [Control::Left, Control::Backward, Control::Right, Control::Rotate, Control::Quit]
    {
        let pressed = t.handle_edge(control, Transition::Pressed);
        assert!(pressed.command.is_none());
        assert_eq!(pressed.propagation, Propagation::Stop);
        let released = t.handle_edge(control, Transition::Released);
        assert!(released.command.is_none());
        assert_eq!(released.propagation, Propagation::Stop);
    }
}

#[test]
fn repeated_press_marks_active_once_but_still_publishes() {
    let mut t = Tracker::new();

    let first = t.handle_edge(Control::Forward, Transition::Pressed);
    let after_first = t;
    assert!(t.forward_active);
    assert_eq!(first.command.unwrap().payload, b"10".to_vec());

    let second = t.handle_edge(Control::Forward, Transition::Pressed);
    assert_eq!(t, after_first);
    assert_eq!(second.command.unwrap().payload, b"10".to_vec());

    let third = t.handle_edge(Control::Forward, Transition::Pressed);
    assert_eq!(t, after_first);
    assert_eq!(third.command.unwrap().payload, b"10".to_vec());
}

#[test]
fn release_clears_even_if_never_pressed() {
    let mut t = Tracker::new();
    let out = t.handle_edge(Control::Backward, Transition::Released);
    assert!(!t.backward_active);
    assert!(out.command.is_none());
    assert_eq!(out.propagation, Propagation::Stop);
}

#[test]
fn quit_and_rotate_signal_on_press_only() {
    let mut t = Tracker::new();

    let quit = t.handle_edge(Control::Quit, Transition::Pressed);
    assert!(quit.quit);
    assert!(!quit.rotate);
    assert_eq!(quit.propagation, Propagation::Stop);

    let rotate = t.handle_edge(Control::Rotate, Transition::Pressed);
    assert!(rotate.rotate);
    assert!(!rotate.quit);

    let released = t.handle_edge(Control::Quit, Transition::Released);
    assert!(!released.quit);
    let released = t.handle_edge(Control::Rotate, Transition::Released);
    assert!(!released.rotate);

    let forward = t.handle_edge(Control::Forward, Transition::Pressed);
    assert!(!forward.quit);
    assert!(!forward.rotate);
}

#[test]
fn controls_toggle_independently() {
    let mut t = Tracker::new();
    t.handle_edge(Control::Forward, Transition::Pressed);
    t.handle_edge(Control::Left, Transition::Pressed);
    assert!(t.forward_active);
    assert!(t.left_active);
    assert!(!t.right_active);

    t.handle_edge(Control::Forward, Transition::Released);
    assert!(!t.forward_active);
    assert!(t.left_active);
}
