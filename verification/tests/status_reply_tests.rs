use rustbot::replies::{
    TrackUrlError, account_created_message, alias_lookup_message, alias_set_message, folder_status_message,
    item_count_message, queue_position_message, set_bombs_message, validate_track_url, version_message,
};
use rustbot::status::StatusState;

#[test]
fn status_follows_readiness() {
    let mut state = StatusState::new();
    let before = state.snapshot("1.0.0".to_string(), 5);
    assert_eq!((before.name.as_str(), before.pfp.as_str(), before.online), ("RustBot", "", false));
    state.set_ready("Bot".to_string(), "pic.png".to_string());
    let after = state.snapshot("1.0.0".to_string(), 9);
    assert_eq!((after.name.as_str(), after.pfp.as_str(), after.online), ("Bot", "pic.png", true));
    assert_eq!((after.version.as_str(), after.uptime_seconds), ("1.0.0", 9));
}

#[test]
fn short_replies() {
    assert_eq!(item_count_message("mine", 3), "current mine count: 3");
    assert_eq!(set_bombs_message("bob", -1), "Set Bombs for bob to -1");
    assert_eq!(version_message("0.1.0"), "The bot is running version 0.1.0");
    assert_eq!(account_created_message("bob", "2020-01-01"), "bob's account was created at 2020-01-01");
    assert_eq!(folder_status_message(true), "Folder Status: true");
    assert_eq!(alias_set_message("whip", "Abyssal whip"), "GE alias `whip` for `Abyssal whip` set.");
    assert_eq!(alias_lookup_message("whip", Some("Abyssal whip")), "GE alias `whip` is `Abyssal whip`.");
    assert_eq!(alias_lookup_message("x", None), "GE alias `x` not found.");
    assert_eq!(queue_position_message(4), "Added song to queue: position 4");
}

#[test]
fn track_urls() {
    assert_eq!(validate_track_url(None), Err(TrackUrlError::Missing));
    assert_eq!(validate_track_url(Some("ftp://x".to_string())), Err(TrackUrlError::NotHttp));
    assert_eq!(validate_track_url(Some("htt".to_string())), Err(TrackUrlError::NotHttp));
    assert_eq!(validate_track_url(Some("https://x".to_string())), Ok("https://x".to_string()));
}
