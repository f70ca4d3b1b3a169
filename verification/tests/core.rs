use mic_mute::popup::{get_mute_title_text, Monitor, Popup};
use mic_mute::reactor::{EventIds, MenuAction, Reactor, THROTTLE_TIMEOUT_MILLIS};
use mic_mute::state::{DeviceError, MuteState};
use mic_mute::throttle::Throttle;

#[test]
fn throttle_fresh_is_available() {
    let t = Throttle::new(200);
    assert!(t.available(0));
    assert!(t.available(12345));
}

#[test]
fn throttle_window_boundaries() {
    let mut t = Throttle::new(200);
    assert!(t.accept(0).is_ok());
    assert!(!t.available(0));
    assert!(!t.available(1));
    assert!(!t.available(199));
    assert!(t.available(200));
    assert!(t.available(201));
}

#[test]
fn throttle_refuses_when_unavailable() {
    let mut t = Throttle::new(200);
    assert!(t.accept(100).is_ok());
    let r = t.accept(250);
    assert!(r.is_err());
    // the refused call left the state unchanged
    assert!(!t.available(299));
    assert!(t.available(300));
}

#[test]
fn toggle_parity_over_sequences() {
    // the observed flag after n successful flips is initial XOR (n odd)
    for &initial in &[false, true] {
        let mut s = MuteState::new(initial);
        for n in 1..=8u32 {
            let target = s.target(None);
            let r = s.commit(Ok(target));
            assert_eq!(r, Ok(target));
            assert_eq!(s.muted, initial ^ (n % 2 == 1));
        }
    }
}

#[test]
fn force_mute_is_idempotent() {
    let mut s = MuteState::new(false);
    let t1 = s.target(Some(true));
    assert!(t1);
    s.commit(Ok(t1)).unwrap();
    assert!(s.muted);
    let t2 = s.target(Some(true));
    assert!(t2);
    s.commit(Ok(t2)).unwrap();
    assert!(s.muted);
}

#[test]
fn device_failure_leaves_state_unchanged() {
    let mut s = MuteState::new(true);
    let r = s.commit(Err(DeviceError));
    assert_eq!(r, Err(DeviceError));
    assert!(s.muted);
}

#[test]
fn title_text_matches_state() {
    assert_eq!(get_mute_title_text(true), "Muted");
    assert_eq!(get_mute_title_text(false), "Unmuted");
}

#[test]
fn popup_placement_formula() {
    let mut p = Popup::new(false);
    let mon = Monitor { x: 0, y: 0, width: 1000, height: 800, id: 1 };
    p.update_placement(Some(mon));
    // x = (1000 + 0) / 2 - 200 / 2; y = 0 + 800 - 2 * 40
    assert_eq!(p.x, 400);
    assert_eq!(p.y, 720);
    assert!(!p.cursor_on_separate_monitor);
}

#[test]
fn popup_placement_negative_origin() {
    let mut p = Popup::new(false);
    let mon = Monitor { x: -1000, y: -500, width: 800, height: 600, id: 2 };
    p.update_placement(Some(mon));
    // (800 - 1000) / 2 = -100, minus half the popup width
    assert_eq!(p.x, -200);
    assert_eq!(p.y, 20);
}

#[test]
fn popup_placement_skipped_without_monitor() {
    let mut p = Popup::new(false);
    p.update_placement(None);
    assert_eq!(p.x, 0);
    assert_eq!(p.y, 0);
}

#[test]
fn popup_update_shows_only_when_muting() {
    let mon = Monitor { x: 0, y: 0, width: 1000, height: 800, id: 1 };
    let mut p = Popup::new(false);
    p.update(false, Some(mon));
    assert!(!p.visible);
    assert!(!p.text_muted);
    p.update(true, Some(mon));
    assert!(p.visible);
    assert!(p.text_muted);
    // unmuting retitles but does not hide synchronously
    p.update(false, Some(mon));
    assert!(p.visible);
    assert!(!p.text_muted);
}

#[test]
fn popup_hide_is_idempotent() {
    let mon = Monitor { x: 0, y: 0, width: 1000, height: 800, id: 1 };
    let mut p = Popup::new(true);
    p.update(true, Some(mon));
    p.hide_popup();
    assert!(!p.visible);
    p.hide_popup();
    assert!(!p.visible);
    assert!(p.text_muted);
}

#[test]
fn popup_get_size_is_fixed() {
    assert_eq!(Popup::get_size(), (200, 40));
}

#[test]
fn detect_cursor_monitor_sets_flag() {
    let a = Monitor { x: 0, y: 0, width: 1000, height: 800, id: 1 };
    let b = Monitor { x: 1000, y: 0, width: 1280, height: 1024, id: 2 };
    let mut p = Popup::new(false);
    p.detect_cursor_monitor(Some(b), Some(a));
    assert!(p.cursor_on_separate_monitor);
    p.detect_cursor_monitor(Some(a), Some(a));
    assert!(!p.cursor_on_separate_monitor);
    // unresolved monitors keep the flag
    p.detect_cursor_monitor(Some(b), Some(a));
    p.detect_cursor_monitor(None, Some(a));
    assert!(p.cursor_on_separate_monitor);
    p.detect_cursor_monitor(Some(b), None);
    assert!(p.cursor_on_separate_monitor);
}

#[test]
fn menu_action_quit_matched_first() {
    let ids = EventIds { button_toggle_mute: 7, button_quit: 9, mute_shortcut: 3 };
    assert_eq!(ids.menu_action(9), Some(MenuAction::Quit));
    assert_eq!(ids.menu_action(7), Some(MenuAction::ToggleMute));
    assert_eq!(ids.menu_action(8), None);
    let clash = EventIds { button_toggle_mute: 5, button_quit: 5, mute_shortcut: 3 };
    assert_eq!(clash.menu_action(5), Some(MenuAction::Quit));
}

#[test]
fn hotkey_triggers_on_press_of_registered_id() {
    let ids = EventIds { button_toggle_mute: 7, button_quit: 9, mute_shortcut: 3 };
    assert!(ids.hotkey_triggers(3, true));
    assert!(!ids.hotkey_triggers(3, false));
    assert!(!ids.hotkey_triggers(4, true));
}

#[test]
fn reactor_toggle_scenario() {
    // start unmuted; hotkey press mutes, popup shows "Muted", no hide scheduled
    let mon = Monitor { x: 0, y: 0, width: 1000, height: 800, id: 1 };
    let mut re = Reactor::new(false, THROTTLE_TIMEOUT_MILLIS);
    let plan = re.plan_update_mic(true);
    assert_eq!(plan, Some(None));
    let target = re.mute.target(None);
    assert!(target);
    let sched = re.finish_update_mic(true, Ok(target), Some(mon));
    assert!(!sched);
    assert!(re.mute.muted);
    assert!(re.popup.visible);
    assert!(re.popup.text_muted);

    // second press unmutes, popup reads "Unmuted", hide scheduled
    let target = re.mute.target(None);
    assert!(!target);
    let sched = re.finish_update_mic(true, Ok(target), Some(mon));
    assert!(sched);
    assert!(!re.mute.muted);
    assert!(re.popup.visible);
    assert!(!re.popup.text_muted);

    // the delayed message arrives with no further input: popup hides
    re.on_hide_message();
    assert!(!re.popup.visible);
}

#[test]
fn stale_hide_message_is_ignored() {
    // toggle to unmuted (hide scheduled), then back to muted before delivery
    let mon = Monitor { x: 0, y: 0, width: 1000, height: 800, id: 1 };
    let mut re = Reactor::new(true, THROTTLE_TIMEOUT_MILLIS);
    let sched = re.finish_update_mic(true, Ok(false), Some(mon));
    assert!(sched);
    let sched = re.finish_update_mic(true, Ok(true), Some(mon));
    assert!(!sched);
    assert!(re.popup.visible);
    assert!(re.popup.text_muted);

    // the stale message must not hide the popup showing "Muted"
    re.on_hide_message();
    assert!(re.popup.visible);
    assert!(re.popup.text_muted);
}

#[test]
fn device_failure_produces_no_render() {
    let mon = Monitor { x: 0, y: 0, width: 1000, height: 800, id: 1 };
    let mut re = Reactor::new(false, THROTTLE_TIMEOUT_MILLIS);
    let before_popup_visible = re.popup.visible;
    let sched = re.finish_update_mic(true, Err(DeviceError), Some(mon));
    assert!(!sched);
    assert!(!re.mute.muted);
    assert_eq!(re.popup.visible, before_popup_visible);
    assert!(!re.popup.text_muted);
    assert_eq!(re.popup.x, 0);
    assert_eq!(re.popup.y, 0);
}

#[test]
fn quit_forces_unmute() {
    let re = Reactor::new(true, THROTTLE_TIMEOUT_MILLIS);
    assert_eq!(re.quit_plan(), Some(false));
    let mut s = re.mute;
    let outcome = s.commit(Ok(false));
    assert_eq!(outcome, Ok(false));
    assert!(!s.muted);
}

#[test]
fn background_pass_reasserts_mute_only_while_muted() {
    let mut re = Reactor::new(true, THROTTLE_TIMEOUT_MILLIS);
    assert_eq!(re.plan_update_mic(false), Some(Some(true)));
    let mut quiet = Reactor::new(false, THROTTLE_TIMEOUT_MILLIS);
    assert_eq!(quiet.plan_update_mic(false), None);
    // at most one acceptance per throttle window
    assert!(re.begin_native_tick(0));
    assert!(!re.begin_native_tick(100));
    assert!(re.begin_native_tick(200));
}
