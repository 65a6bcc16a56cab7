use rustbot::config::{Secrets, get_current_bot_id, get_env, get_secret, is_bot};
use rustbot::emoji::{
    CustomEmoji, DOOT_ID, MANNY_ID, MINUS_TWO_ID, PLUS_TWO_ID, emoji_text, get_emoji, points_from_reaction,
};

fn secrets(environment: &str) -> Secrets {
    Secrets {
        discord_token: "SECRET-REDACTED".to_string(),
        environment: environment.to_string(),
        live_bot_user_id: "100".to_string(),
        testing_bot_user_id: "200".to_string(),
    }
}

#[test]
fn environment_defaults_to_testing() {
    assert_eq!(get_env(&secrets("")), "testing");
    assert_eq!(get_env(&secrets("live")), "live");
    assert_eq!(get_secret(&secrets("live")), "SECRET-REDACTED");
}

#[test]
fn bot_ids_are_recognised() {
    assert!(is_bot("100", &secrets("live")));
    assert!(is_bot("200", &secrets("live")));
    assert!(!is_bot("300", &secrets("live")));
    assert_eq!(get_current_bot_id(&secrets("live")), "100");
    assert_eq!(get_current_bot_id(&secrets("")), "200");
    assert_eq!(get_current_bot_id(&secrets("staging")), "200");
}

#[test]
fn emojis_depend_on_environment() {
    assert_eq!(get_emoji("plus_two", "live").id, PLUS_TWO_ID);
    assert_eq!(get_emoji("minus_two", "live").id, MINUS_TWO_ID);
    assert_eq!(get_emoji("winner", "live").id, PLUS_TWO_ID);
    assert_eq!(get_emoji("plus_two", "testing").name, "manny");
    assert_eq!(get_emoji("minus_two", "testing").id, DOOT_ID);
    assert_eq!(get_emoji("doot", "testing").id, MANNY_ID);
}

#[test]
fn reactions_score_the_bot_emojis() {
    for env in ["live", "testing"] {
        assert_eq!(points_from_reaction(Some(get_emoji("plus_two", env).id)), 2);
        assert_eq!(points_from_reaction(Some(get_emoji("minus_two", env).id)), -2);
    }
    assert_eq!(points_from_reaction(Some(1)), 0);
    assert_eq!(points_from_reaction(None), 0);
}

#[test]
fn emojis_are_written_as_markup() {
    assert_eq!(emoji_text(&get_emoji("plus_two", "live")), "<:p2:924536822472802337>");
    let animated = CustomEmoji { animated: true, id: 5, name: "wave".to_string() };
    assert_eq!(emoji_text(&animated), "<a:wave:5>");
}
