use statusline::palette::Palette;
use statusline::palette::PaletteColor;
use statusline::state::Event;
use statusline::state::InputMode;
use statusline::state::State;
use statusline::state::TabInfo;
use statusline::state::TRIGGER_KEY;

fn tab(position: usize, active: bool) -> TabInfo {
    TabInfo { position, name: String::from("tab"), active }
}

#[test]
fn initial_state_is_the_default() {
    let s = State::default();
    assert_eq!(s.mode, InputMode::Normal);
    assert!(s.tabs.is_empty());
    assert!(s.session_name.is_none());
    assert_eq!(s.palette, Palette::default());
    assert_eq!(s.count, 0);
    assert_eq!(s.action_count, 0);
}

#[test]
fn mode_change_replaces_mode_session_and_palette() {
    let mut s = State::default();
    let mut p = Palette::default();
    p.green = PaletteColor::Rgb(0, 255, 0);
    let out = s.apply(Event::ModeChanged(
        InputMode::Locked,
        Some(String::from("work")),
        p,
    ));
    assert!(out.render);
    assert!(!out.rearm_timer);
    assert!(!out.run_command);
    assert_eq!(s.mode, InputMode::Locked);
    assert_eq!(s.session_name.as_deref(), Some("work"));
    assert_eq!(s.palette, p);
    // A later mode change replaces the session name wholesale.
    let out2 = s.apply(Event::ModeChanged(InputMode::Pane, None, Palette::default()));
    assert!(out2.render);
    assert!(s.session_name.is_none());
    assert_eq!(s.palette, Palette::default());
}

#[test]
fn tabs_change_replaces_the_list_wholesale() {
    let mut s = State::default();
    let out = s.apply(Event::TabsChanged(vec![tab(1, true), tab(2, false)]));
    assert!(out.render);
    assert_eq!(s.tabs.len(), 2);
    let out2 = s.apply(Event::TabsChanged(vec![tab(7, true)]));
    assert!(out2.render);
    assert_eq!(s.tabs.len(), 1);
    assert_eq!(s.tabs[0].position, 7);
}

#[test]
fn timer_events_count_up_and_always_render() {
    let mut s = State::default();
    for k in 1..=5usize {
        let out = s.apply(Event::TimerFired);
        assert!(out.render);
        assert!(out.rearm_timer);
        assert!(!out.run_command);
        assert_eq!(s.count, k);
    }
    assert_eq!(s.mode, InputMode::Normal);
    assert!(s.session_name.is_none());
}

#[test]
fn trigger_key_dispatches_the_command_without_render() {
    let mut s = State::default();
    let out = s.apply(Event::KeyPressed(TRIGGER_KEY));
    assert!(!out.render);
    assert!(!out.rearm_timer);
    assert!(out.run_command);
    assert_eq!(s.action_count, 1);
    assert_eq!(s.count, 0);
}

#[test]
fn other_keys_and_other_events_are_ignored() {
    let mut s = State::default();
    let out = s.apply(Event::KeyPressed('x'));
    assert!(!out.render && !out.rearm_timer && !out.run_command);
    assert_eq!(s.action_count, 0);
    let out2 = s.apply(Event::Other);
    assert!(!out2.render && !out2.rearm_timer && !out2.run_command);
    assert_eq!(s.count, 0);
}
