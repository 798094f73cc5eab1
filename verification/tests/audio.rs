use rgytui::audio::{
    device_identity_changed, route_change_plan, should_check_device, should_retain, RouteChangeNotice,
    MAX_RETAINED_BYTES,
};
use rgytui::domain::player_state::PlayerState;
use rgytui::shared::spectrum::BANDS;

#[test]
fn route_change_plan_retained_bytes_pauses_with_resume_position() {
    let (state, resume_pos, notice) = route_change_plan(true, 42.5);
    assert_eq!(state, PlayerState::Paused);
    assert_eq!(resume_pos, Some(42.5), "retained bytes must preserve the resume position");
    assert_eq!(notice, RouteChangeNotice::ResumeAvailable);
}

#[test]
fn route_change_plan_without_retained_bytes_stops_without_resume() {
    let (state, resume_pos, notice) = route_change_plan(false, 42.5);
    assert_eq!(state, PlayerState::Stopped);
    assert_eq!(resume_pos, None, "no retained bytes means no resume position is kept");
    assert_eq!(notice, RouteChangeNotice::RestartRequired);
}

#[test]
fn should_retain_respects_cap() {
    assert!(should_retain(0));
    assert!(should_retain(MAX_RETAINED_BYTES));
    assert!(!should_retain(MAX_RETAINED_BYTES + 1));
    assert_eq!(MAX_RETAINED_BYTES, 32 * 1024 * 1024);
}

#[test]
fn should_check_device_only_while_playing_with_content() {
    assert!(should_check_device(PlayerState::Playing, false));
    assert!(!should_check_device(PlayerState::Playing, true));
    assert!(!should_check_device(PlayerState::Paused, false));
    assert!(!should_check_device(PlayerState::Stopped, false));
    assert!(!should_check_device(PlayerState::Idle, false));
}

#[test]
fn device_identity_changed_is_inert_without_a_recorded_baseline() {
    assert!(!device_identity_changed(&None, &Some("current".into())));
    assert!(!device_identity_changed(&None, &None));
    assert!(!device_identity_changed(&Some("previous".into()), &None));
    assert!(!device_identity_changed(&Some("speakers".into()), &Some("speakers".into())));
    assert!(device_identity_changed(&Some("speakers".into()), &Some("headset".into())));
}

#[test]
fn bands_is_correct_size() {
    assert_eq!(BANDS, 32);
}
