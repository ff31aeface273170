use matchbot::config::EnvironmentConfig;
use matchbot::dispatch::{dispatch_message, Effect, Outcome};
use matchbot::media::add_media_key_to_user;
use matchbot::rbac::Role;
use matchbot::reply::{render_reply, Reply};
use matchbot::session::{EditingSession, ProfileField, SessionStep};
use matchbot::telegram::{TelegramChat, TelegramMessage, TelegramUser};
use matchbot::user::{apply_field, apply_state_and_name, new_user, User, UserState};

fn sender(id: i64) -> TelegramUser {
    TelegramUser { id, username: Some("tester".to_string()) }
}

fn text_msg(from: Option<TelegramUser>, text: &str) -> TelegramMessage {
    TelegramMessage { from, chat: TelegramChat { id: 777 }, text: Some(text.to_string()) }
}

/// Applies the outcome's effects to an in-memory user row and session slot,
/// the way the store-facing caller would.
fn apply_effects(
    outcome: &Outcome,
    user: Option<User>,
    session: Option<EditingSession>,
    now: u64,
) -> (Option<User>, Option<EditingSession>) {
    let mut user = user;
    let mut session = session;
    for effect in &outcome.effects {
        match effect {
            Effect::CreateUser(u) => user = Some(u.clone()),
            Effect::SetStateAndName { user_id, name, state } => {
                let current = user.expect("no user row to update");
                assert_eq!(&current.id, user_id);
                user = Some(apply_state_and_name(&current, name.clone(), *state, now));
            },
            Effect::SetField { user_id, value } => {
                let current = user.expect("no user row to update");
                assert_eq!(&current.id, user_id);
                user = Some(apply_field(&current, value, now));
            },
            Effect::SetMediaKeys { user_id, media_keys } => {
                let mut current = user.expect("no user row to update");
                assert_eq!(&current.id, user_id);
                current.media_keys = media_keys.clone();
                current.updated_at = now;
                current.last_interaction_at = now;
                user = Some(current);
            },
            Effect::DeleteBlob { .. } => {},
            Effect::PutSession { step } => session = Some(EditingSession { step: step.clone() }),
            Effect::DeleteSession => session = None,
        }
    }
    (user, session)
}

#[test]
fn test_onboarding_flow_scenario() {
    let config = EnvironmentConfig::default();
    let from = sender(555);

    // New external id sends /start: a row is created in Onboarding with no
    // name, and the reply asks for a name.
    let start = text_msg(Some(from.clone()), "/start");
    let out = dispatch_message(None, None, &start, &config, 1000, "uid-1".to_string());
    assert_eq!(out.reply, Reply::AskName);
    assert_eq!(render_reply(&out.reply), "Welcome! What's your name?");
    assert_eq!(out.effects.len(), 1);
    let (user, session) = apply_effects(&out, None, None, 1000);
    let user = user.expect("user created");
    assert!(session.is_none());
    assert_eq!(user.state, UserState::Onboarding);
    assert!(user.name.is_none());
    assert_eq!(user.id, "uid-1");
    assert_eq!(user.telegram_id, 555);
    assert_eq!(out.record_interaction_for.as_deref(), Some("uid-1"));

    // The user sends a name: the account becomes Active with that name and
    // the reply shows the menu.
    let name_msg = text_msg(Some(from.clone()), "Alex");
    let out = dispatch_message(Some(&user), None, &name_msg, &config, 1001, "uid-2".to_string());
    assert!(matches!(out.reply, Reply::NameSaved { .. }));
    assert_eq!(
        render_reply(&out.reply),
        "Great, Alex! Profile complete.\n\nMenu:\n/find_match\n/profile\n/help"
    );
    let (user, _) = apply_effects(&out, Some(user), None, 1001);
    let user = user.unwrap();
    assert_eq!(user.state, UserState::Active);
    assert_eq!(user.name.as_deref(), Some("Alex"));

    // Sending the same text again afterwards is ordinary free text, not a
    // name-set.
    let out = dispatch_message(Some(&user), None, &name_msg, &config, 1002, "uid-3".to_string());
    assert_eq!(out.reply, Reply::Fallback);
    assert!(out.effects.is_empty());
}

#[test]
fn test_onboarding_invalid_names_reprompt() {
    let config = EnvironmentConfig::default();
    let from = sender(556);
    let user = new_user("uid-9".to_string(), 556, None, 100);

    let too_long = "x".repeat(51);
    for bad in ["", "   ", too_long.as_str()] {
        let msg = text_msg(Some(from.clone()), bad);
        let out = dispatch_message(Some(&user), None, &msg, &config, 101, "f".to_string());
        assert_eq!(out.reply, Reply::InvalidName, "input {:?}", bad);
        assert!(out.effects.is_empty());
    }
    // Exactly 50 characters is accepted.
    let ok = "y".repeat(50);
    let msg = text_msg(Some(from.clone()), ok.as_str());
    let out = dispatch_message(Some(&user), None, &msg, &config, 102, "f".to_string());
    assert!(matches!(out.reply, Reply::NameSaved { .. }));
}

fn active_user_with_media(keys: &[&str]) -> User {
    let mut user = new_user("media-user".to_string(), 889_900_111, None, 500);
    user = apply_state_and_name(&user, Some("MediaDeleter".to_string()), UserState::Active, 501);
    for key in keys {
        user = add_media_key_to_user(&user, key.to_string(), 502).unwrap();
    }
    user
}

#[test]
fn test_media_deletion_flow_scenario() {
    let config = EnvironmentConfig::default();
    let from = sender(889_900_111);
    let user = active_user_with_media(&["photo1_uuid1.jpg", "video2_uuid2.mp4", "doc3_uuid3.pdf"]);

    // Step A: the user initiates deletion; a session is created listing the
    // snapshot 1:A, 2:B, 3:C.
    let init = text_msg(Some(from.clone()), "/profile delete_media");
    let out = dispatch_message(Some(&user), None, &init, &config, 600, "f1".to_string());
    match &out.reply {
        Reply::MediaDeletePrompt { listed_keys } => {
            assert_eq!(listed_keys.len(), 3);
            assert_eq!(listed_keys[0], "photo1_uuid1.jpg");
        },
        other => panic!("expected media prompt, got {:?}", other),
    }
    let prompt = render_reply(&out.reply);
    assert!(prompt.starts_with("Which media item would you like to delete?"));
    assert!(prompt.contains("1\\. `photo1_uuid1.jpg`"));
    assert!(prompt.contains("2\\. `video2_uuid2.mp4`"));
    assert!(prompt.contains("3\\. `doc3_uuid3.pdf`"));
    let (user_opt, session) = apply_effects(&out, Some(user), None, 600);
    let user = user_opt.unwrap();
    let session = session.expect("session created");
    assert!(matches!(session.step, SessionStep::AwaitingMediaChoice { .. }));

    // Step B: the user replies "2": key B is removed from the row, its blob
    // deletion is requested, and the session is deleted.
    let choose = text_msg(Some(from.clone()), "2");
    let out = dispatch_message(Some(&user), Some(&session), &choose, &config, 601, "f2".to_string());
    assert_eq!(out.reply, Reply::MediaDeleted);
    assert!(out.effects.iter().any(|e| matches!(
        e,
        Effect::DeleteBlob { key } if key == "video2_uuid2.mp4"
    )));
    let (user_opt, session) = apply_effects(&out, Some(user), Some(session), 601);
    let user = user_opt.unwrap();
    assert!(session.is_none());
    assert_eq!(user.media_keys, vec!["photo1_uuid1.jpg", "doc3_uuid3.pdf"]);

    // Step C: replying "2" again with no session falls through to the
    // free-text fallback, not a crash.
    let out = dispatch_message(Some(&user), None, &choose, &config, 602, "f3".to_string());
    assert_eq!(out.reply, Reply::Fallback);
    assert!(out.effects.is_empty());
}

#[test]
fn test_invalid_numeric_selection_keeps_session_and_row() {
    let config = EnvironmentConfig::default();
    let from = sender(889_900_111);
    let user = active_user_with_media(&["a.jpg", "b.jpg", "c.jpg"]);
    let session = EditingSession {
        step: SessionStep::AwaitingMediaChoice {
            listed_keys: vec!["a.jpg".to_string(), "b.jpg".to_string(), "c.jpg".to_string()],
        },
    };
    for bad in ["5", "0", "abc", "", "12x"] {
        let msg = text_msg(Some(from.clone()), bad);
        let out =
            dispatch_message(Some(&user), Some(&session), &msg, &config, 700, "f".to_string());
        assert_eq!(out.reply, Reply::InvalidSelection, "input {:?}", bad);
        assert!(out.effects.is_empty(), "input {:?} must not mutate anything", bad);
    }
}

#[test]
fn test_media_choice_revalidated_against_current_row() {
    // The snapshot lists a key that no longer exists on the row: the flow
    // ends without a destructive action.
    let config = EnvironmentConfig::default();
    let from = sender(889_900_111);
    let user = active_user_with_media(&["kept.jpg"]);
    let session = EditingSession {
        step: SessionStep::AwaitingMediaChoice { listed_keys: vec!["stale.jpg".to_string()] },
    };
    let msg = text_msg(Some(from.clone()), "1");
    let out = dispatch_message(Some(&user), Some(&session), &msg, &config, 700, "f".to_string());
    assert_eq!(out.reply, Reply::MediaGone);
    assert_eq!(out.effects, vec![Effect::DeleteSession]);
}

#[test]
fn test_blocked_user_gets_fixed_denial_for_everything() {
    let config = EnvironmentConfig::default();
    let from = sender(42);
    let mut user = new_user("blocked-id".to_string(), 42, None, 10);
    user = apply_state_and_name(&user, Some("B".to_string()), UserState::Blocked, 11);
    user.roles = vec![Role::User, Role::Admin];

    let session =
        EditingSession { step: SessionStep::AwaitingFieldValue { field: ProfileField::Bio } };
    for text in ["/start", "/help", "/status", "/admin_settings", "hello", "2"] {
        let msg = text_msg(Some(from.clone()), text);
        let out = dispatch_message(Some(&user), None, &msg, &config, 20, "f".to_string());
        assert_eq!(out.reply, Reply::BlockedAccount, "input {:?}", text);
        assert!(out.effects.is_empty());
        let out =
            dispatch_message(Some(&user), Some(&session), &msg, &config, 20, "f".to_string());
        assert_eq!(out.reply, Reply::BlockedAccount, "input {:?} with session", text);
        assert!(out.effects.is_empty());
    }
    assert_eq!(
        render_reply(&Reply::BlockedAccount),
        "Your account is blocked."
    );
}

#[test]
fn test_unknown_sender_and_non_text_messages() {
    let config = EnvironmentConfig::default();

    // No identifiable sender.
    let msg = text_msg(None, "/start");
    let out = dispatch_message(None, None, &msg, &config, 1, "f".to_string());
    assert_eq!(out.reply, Reply::CannotIdentify);
    assert!(out.effects.is_empty());
    assert!(out.record_interaction_for.is_none());

    // Unknown sender, not the start command.
    let msg = text_msg(Some(sender(1)), "hello");
    let out = dispatch_message(None, None, &msg, &config, 1, "f".to_string());
    assert_eq!(out.reply, Reply::PleaseStart);
    assert!(out.effects.is_empty());

    // Unknown sender, a command that is not start.
    let msg = text_msg(Some(sender(1)), "/help");
    let out = dispatch_message(None, None, &msg, &config, 1, "f".to_string());
    assert_eq!(out.reply, Reply::PleaseStart);

    // No text body.
    let msg = TelegramMessage { from: Some(sender(1)), chat: TelegramChat { id: 7 }, text: None };
    let out = dispatch_message(None, None, &msg, &config, 1, "f".to_string());
    assert_eq!(out.reply, Reply::TextOnly);
    assert!(out.effects.is_empty());
}

fn plain_active_user() -> User {
    let user = new_user("plain-id".to_string(), 99, None, 10);
    apply_state_and_name(&user, Some("Pat".to_string()), UserState::Active, 11)
}

#[test]
fn test_command_authorization_and_routing() {
    let config = EnvironmentConfig::default();
    let from = sender(99);
    let user = plain_active_user();

    // /status is denied to a plain user by the policy.
    let out = dispatch_message(
        Some(&user),
        None,
        &text_msg(Some(from.clone()), "/status"),
        &config,
        20,
        "f".to_string(),
    );
    assert_eq!(out.reply, Reply::PermissionDenied);
    assert_eq!(render_reply(&out.reply), "You don't have permission for that.");

    // An unknown command is answered generically.
    let out = dispatch_message(
        Some(&user),
        None,
        &text_msg(Some(from.clone()), "/bogus now"),
        &config,
        20,
        "f".to_string(),
    );
    match &out.reply {
        Reply::UnknownCommand { token } => assert_eq!(token, "/bogus"),
        other => panic!("expected unknown command, got {:?}", other),
    }
    assert_eq!(render_reply(&out.reply), "Unknown command: /bogus. Try /help.");

    // /help lists admin commands only for administrators.
    let out = dispatch_message(
        Some(&user),
        None,
        &text_msg(Some(from.clone()), "/help"),
        &config,
        20,
        "f".to_string(),
    );
    assert_eq!(out.reply, Reply::Help { admin: false });
    let mut admin = plain_active_user();
    admin.roles = vec![Role::User, Role::Admin];
    let out = dispatch_message(
        Some(&admin),
        None,
        &text_msg(Some(from.clone()), "/help"),
        &config,
        20,
        "f".to_string(),
    );
    assert_eq!(out.reply, Reply::Help { admin: true });
    assert!(render_reply(&out.reply).contains("Admin Commands:"));

    // /status for an administrator reaches the handler.
    let out = dispatch_message(
        Some(&admin),
        None,
        &text_msg(Some(from.clone()), "/status"),
        &config,
        20,
        "f".to_string(),
    );
    assert_eq!(out.reply, Reply::StatusOk);

    // The command token is matched case-insensitively.
    let out = dispatch_message(
        Some(&user),
        None,
        &text_msg(Some(from.clone()), "/START"),
        &config,
        20,
        "f".to_string(),
    );
    assert!(matches!(out.reply, Reply::WelcomeBack { .. }));
    assert_eq!(
        render_reply(&out.reply),
        "Welcome back, Pat!\n\nMenu:\n/find_match\n/profile\n/help"
    );

    // /profile with no arguments shows the view; /find_match answers its
    // placeholder.
    let out = dispatch_message(
        Some(&user),
        None,
        &text_msg(Some(from.clone()), "/profile"),
        &config,
        20,
        "f".to_string(),
    );
    assert!(matches!(out.reply, Reply::ProfileView { .. }));
    assert_eq!(render_reply(&out.reply), "Placeholder for /profile. Hello, Pat!");
    let out = dispatch_message(
        Some(&user),
        None,
        &text_msg(Some(from.clone()), "/find_match"),
        &config,
        20,
        "f".to_string(),
    );
    assert_eq!(out.reply, Reply::FindMatch);
}

#[test]
fn test_profile_edit_field_flows() {
    let config = EnvironmentConfig::default();
    let from = sender(99);
    let user = plain_active_user();

    // Initiation creates a session for the addressed field.
    let out = dispatch_message(
        Some(&user),
        None,
        &text_msg(Some(from.clone()), "/profile edit age"),
        &config,
        30,
        "f".to_string(),
    );
    assert_eq!(out.reply, Reply::AskFieldValue { field: ProfileField::Age });
    let (user_opt, session) = apply_effects(&out, Some(user), None, 30);
    let user = user_opt.unwrap();
    let session = session.expect("session created");

    // Invalid input re-prompts and keeps the session and the row unchanged.
    let out = dispatch_message(
        Some(&user),
        Some(&session),
        &text_msg(Some(from.clone()), "very old"),
        &config,
        31,
        "f".to_string(),
    );
    assert_eq!(out.reply, Reply::InvalidFieldValue { field: ProfileField::Age });
    assert!(out.effects.is_empty());
    let out = dispatch_message(
        Some(&user),
        Some(&session),
        &text_msg(Some(from.clone()), "300"),
        &config,
        31,
        "f".to_string(),
    );
    assert_eq!(out.reply, Reply::InvalidFieldValue { field: ProfileField::Age });

    // Valid input commits the field and deletes the session.
    let out = dispatch_message(
        Some(&user),
        Some(&session),
        &text_msg(Some(from.clone()), "30"),
        &config,
        32,
        "f".to_string(),
    );
    assert_eq!(out.reply, Reply::FieldSaved { field: ProfileField::Age });
    let (user_opt, session) = apply_effects(&out, Some(user), Some(session), 32);
    let user = user_opt.unwrap();
    assert!(session.is_none());
    assert_eq!(user.age, Some(30));

    // A new command during a session cancels it before being routed.
    let out = dispatch_message(
        Some(&user),
        None,
        &text_msg(Some(from.clone()), "/profile edit bio"),
        &config,
        33,
        "f".to_string(),
    );
    let (user_opt, session) = apply_effects(&out, Some(user), None, 33);
    let user = user_opt.unwrap();
    let session = session.expect("bio session");
    let out = dispatch_message(
        Some(&user),
        Some(&session),
        &text_msg(Some(from.clone()), "/help"),
        &config,
        34,
        "f".to_string(),
    );
    assert_eq!(out.effects[0], Effect::DeleteSession);
    assert_eq!(out.reply, Reply::Help { admin: false });
}

#[test]
fn test_session_timeout_flag_is_advisory_and_precomputed() {
    let from = sender(99);
    let mut config = EnvironmentConfig::default();
    config.session_timeout_minutes = 30;
    let user = plain_active_user();
    let last = user.last_interaction_at;

    // Exactly at the threshold: not stale; one second past: stale.
    let at_threshold =
        dispatch_message(Some(&user), None, &text_msg(Some(from.clone()), "/help"), &config, last + 1800, "f".to_string());
    assert!(!at_threshold.session_stale);
    let past =
        dispatch_message(Some(&user), None, &text_msg(Some(from.clone()), "/help"), &config, last + 1801, "f".to_string());
    assert!(past.session_stale);
    assert_eq!(past.reply, Reply::Help { admin: false });

    // An onboarding user is never flagged.
    let onboarding = new_user("ob".to_string(), 99, None, 10);
    let out = dispatch_message(
        Some(&onboarding),
        None,
        &text_msg(Some(from.clone()), "/help"),
        &config,
        1_000_000,
        "f".to_string(),
    );
    assert!(!out.session_stale);
}

#[test]
fn test_start_activates_when_name_already_set() {
    let config = EnvironmentConfig::default();
    let from = sender(7);
    let mut user = new_user("half".to_string(), 7, None, 1);
    user = apply_state_and_name(&user, Some("Half".to_string()), UserState::Onboarding, 2);

    let out = dispatch_message(
        Some(&user),
        None,
        &text_msg(Some(from.clone()), "/start"),
        &config,
        3,
        "f".to_string(),
    );
    assert!(matches!(out.reply, Reply::Activated { .. }));
    assert_eq!(
        render_reply(&out.reply),
        "Thanks, Half! Profile active.\n\nMenu:\n/find_match\n/profile\n/help"
    );
    let (user_opt, _) = apply_effects(&out, Some(user), None, 3);
    assert_eq!(user_opt.unwrap().state, UserState::Active);
}

#[test]
fn test_delete_media_with_empty_list() {
    let config = EnvironmentConfig::default();
    let from = sender(99);
    let user = plain_active_user();
    let out = dispatch_message(
        Some(&user),
        None,
        &text_msg(Some(from.clone()), "/profile delete_media"),
        &config,
        40,
        "f".to_string(),
    );
    assert_eq!(out.reply, Reply::NoMedia);
    assert!(out.effects.is_empty());
    assert_eq!(render_reply(&out.reply), "You have no media items.");
}
