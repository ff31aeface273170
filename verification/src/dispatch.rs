//! The command dispatcher: the single decision point that consumes one
//! inbound message, together with the state the caller resolved from its
//! stores, and produces exactly one reply plus the store effects to apply.
//! The caller performs the effects in order; every decision here is pure and
//! verified for every value of the clock and the stores.
use vstd::prelude::*;
use vstd::string::*;
use crate::config::EnvironmentConfig;
use crate::media::{spec_remove_media, keys_contain, remove_media_key_from_user};
use crate::rbac::{allow_spec, roles_contain, RBACService, Role};
use crate::reply::Reply;
use crate::session::{step_wf, session_wf, EditingSession, ProfileField, SessionStep};
use crate::telegram::{TelegramMessage, TelegramUser};
use crate::text::{
    is_space, lower_chars, parse_number_spec, parse_number, token_matches, tokenize, tokenize_spec,
    trim, trim_spec,
};
use crate::user::{
    clone_media_keys, clone_opt_string, clone_string, name_is_valid, new_user, user_wf, valid_name,
    FieldValue, User, UserState,
};

verus! {

/// A store mutation the caller must apply. Effects never carry secrets of
/// the stores; they are plain values addressed by the user's internal id or
/// the conversation the message arrived on.
#[derive(Debug, Clone, PartialEq)]
pub enum Effect {
    /// Insert this freshly created row; fails with a conflict if the
    /// external id already owns one.
    CreateUser(User),
    /// The onboarding-completion transition: set name and state together.
    SetStateAndName { user_id: String, name: Option<String>, state: UserState },
    /// A single profile-attribute update.
    SetField { user_id: String, value: FieldValue },
    /// Replace the full media list (read-modify-write of the list value).
    SetMediaKeys { user_id: String, media_keys: Vec<String> },
    /// Delete the stored blob behind a removed reference.
    DeleteBlob { key: String },
    /// Overwrite this conversation's editing session.
    PutSession { step: SessionStep },
    /// Delete this conversation's editing session.
    DeleteSession,
}

/// What one inbound message produced: the reply, the effects to apply in
/// order, the advisory staleness flag, and the user whose interaction is
/// recorded best-effort after the reply.
#[derive(Debug, Clone, PartialEq)]
pub struct Outcome {
    pub reply: Reply,
    pub effects: Vec<Effect>,
    /// True when the pre-update `last_interaction_at` was older than the
    /// configured threshold for a non-onboarding user; advisory (log-only).
    pub session_stale: bool,
    pub record_interaction_for: Option<String>,
}

/// A trimmed text is a command when it starts with the command prefix.
pub open spec fn is_command_text(t: Seq<char>) -> bool {
    t.len() > 0 && t[0] == '/'
}

/// A text is the designated start command when its first token, lower-cased
/// ASCII-wise, is exactly the start command.
pub open spec fn is_start_text(t: Seq<char>) -> bool {
    let toks = tokenize_spec(t);
    toks.len() > 0 && lower_chars(toks[0]) == "/start"@
}

/// Staleness of the pre-update interaction timestamp against the configured
/// threshold.
pub open spec fn stale_spec(now: u64, last_interaction_at: u64, timeout_minutes: u32) -> bool {
    now > last_interaction_at && now - last_interaction_at > (timeout_minutes as u64) * 60
}

pub fn session_is_stale(now: u64, last_interaction_at: u64, timeout_minutes: u32) -> (stale: bool)
    ensures
        stale == stale_spec(now, last_interaction_at, timeout_minutes),
{
    if now > last_interaction_at {
        (now - last_interaction_at) > (timeout_minutes as u64) * 60
    } else {
        false
    }
}

pub fn is_command(trimmed: &str) -> (r: bool)
    ensures
        r == is_command_text(trimmed@),
{
    let len = trimmed.unicode_len();
    len > 0 && trimmed.get_char(0) == '/'
}

/// The profile attribute named by an edit argument, lower-cased ASCII-wise.
pub open spec fn field_of_token(tok: Seq<char>) -> Option<ProfileField> {
    if tok == "name"@ {
        Some(ProfileField::Name)
    } else if tok == "age"@ {
        Some(ProfileField::Age)
    } else if tok == "gender"@ {
        Some(ProfileField::Gender)
    } else if tok == "bio"@ {
        Some(ProfileField::Bio)
    } else if tok == "location"@ {
        Some(ProfileField::Location)
    } else {
        None
    }
}

pub fn parse_field(tok: &str) -> (field: Option<ProfileField>)
    ensures
        field == field_of_token(lower_chars(tok@)),
{
    if token_matches(tok, "name") {
        Some(ProfileField::Name)
    } else if token_matches(tok, "age") {
        Some(ProfileField::Age)
    } else if token_matches(tok, "gender") {
        Some(ProfileField::Gender)
    } else if token_matches(tok, "bio") {
        Some(ProfileField::Bio)
    } else if token_matches(tok, "location") {
        Some(ProfileField::Location)
    } else {
        None
    }
}

/// The commands the dispatcher routes; anything else is unknown.
pub open spec fn known_command(canon: Seq<char>) -> bool {
    ||| canon == "/start"@
    ||| canon == "/profile"@
    ||| canon == "/find_match"@
    ||| canon == "/help"@
    ||| canon == "/status"@
}

/// The row created for a first contact: `Onboarding`, default roles, no
/// profile attributes, all timestamps at `now`.
pub open spec fn created_user_ok(u: User, sender: TelegramUser, fresh_id: String, now: u64) -> bool {
    &&& u.id == fresh_id
    &&& u.telegram_id == sender.id
    &&& u.telegram_username == sender.username
    &&& u.name is None
    &&& u.state == UserState::Onboarding
    &&& u.media_keys@.len() == 0
    &&& u.roles@ == seq![Role::User]
    &&& u.created_at == now
    &&& u.updated_at == now
    &&& u.last_interaction_at == now
}

/// Start from an unknown sender: create the row and ask for a name.
pub open spec fn start_new_outcome(
    sender: TelegramUser,
    fresh_id: String,
    now: u64,
    reply: Reply,
    effects: Seq<Effect>,
    record: Option<String>,
) -> bool {
    &&& reply == Reply::AskName
    &&& effects.len() == 1
    &&& effects[0] matches Effect::CreateUser(u) && created_user_ok(u, sender, fresh_id, now)
    &&& record == Some(fresh_id)
}

/// Start from a known, non-blocked sender: menu for a complete profile,
/// name prompt while none is set, activation once one is.
pub open spec fn start_existing_outcome(
    u: User,
    reply: Reply,
    effects: Seq<Effect>,
    record: Option<String>,
) -> bool {
    &&& record == Some(u.id)
    &&& if !allow_spec(u.roles@, "/start"@) {
        reply == Reply::PermissionDenied && effects.len() == 0
    } else if u.name is None {
        reply == Reply::AskName && effects.len() == 0
    } else if u.state == UserState::Active {
        (reply matches Reply::WelcomeBack { name } && Some(name) == u.name) && effects.len() == 0
    } else {
        &&& reply matches Reply::Activated { name } && Some(name) == u.name
        &&& effects.len() == 1
        &&& effects[0] matches Effect::SetStateAndName { user_id, name, state } && user_id == u.id
            && name == u.name && state == UserState::Active
    }
}

/// `/profile` and its sub-commands: media-deletion initiation, field-edit
/// initiation, or the profile view.
pub open spec fn profile_outcome(
    u: User,
    tokens: Seq<Seq<char>>,
    reply: Reply,
    effects: Seq<Effect>,
) -> bool {
    if tokens.len() >= 2 && lower_chars(tokens[1]) == "delete_media"@ {
        if u.media_keys@.len() == 0 {
            reply == Reply::NoMedia && effects.len() == 0
        } else {
            &&& reply matches Reply::MediaDeletePrompt { listed_keys } && listed_keys@
                == u.media_keys@
            &&& effects.len() == 1
            &&& effects[0] matches Effect::PutSession { step } && (step matches
                SessionStep::AwaitingMediaChoice { listed_keys: snapshot } && snapshot@
                == u.media_keys@)
        }
    } else if tokens.len() >= 3 && lower_chars(tokens[1]) == "edit"@ && field_of_token(
        lower_chars(tokens[2]),
    ) is Some {
        let field = field_of_token(lower_chars(tokens[2]))->Some_0;
        &&& reply == Reply::AskFieldValue { field }
        &&& effects.len() == 1
        &&& effects[0] == Effect::PutSession {
            step: SessionStep::AwaitingFieldValue { field },
        }
    } else {
        (reply matches Reply::ProfileView { display_name } && display_name == u.name) && effects.len() == 0
    }
}

/// A slash command from a known, non-blocked sender: unknown commands are
/// answered generically; known commands pass the authorization policy
/// before any handler runs.
pub open spec fn command_outcome(
    u: User,
    tokens: Seq<Seq<char>>,
    reply: Reply,
    effects: Seq<Effect>,
    record: Option<String>,
) -> bool {
    &&& record == Some(u.id)
    &&& {
        let canon = lower_chars(tokens[0]);
        if !known_command(canon) {
            (reply matches Reply::UnknownCommand { token } && token@ == tokens[0]) && effects.len()
                == 0
        } else if !allow_spec(u.roles@, canon) {
            reply == Reply::PermissionDenied && effects.len() == 0
        } else if canon == "/start"@ {
            start_existing_outcome(u, reply, effects, record)
        } else if canon == "/profile"@ {
            profile_outcome(u, tokens, reply, effects)
        } else if canon == "/find_match"@ {
            reply == Reply::FindMatch && effects.len() == 0
        } else if canon == "/help"@ {
            (reply matches Reply::Help { admin } && admin == u.roles@.contains(Role::Admin))
                && effects.len() == 0
        } else {
            reply == Reply::StatusOk && effects.len() == 0
        }
    }
}

/// Step input for a field-editing session: a valid value commits the update
/// and ends the session; an invalid one re-prompts and changes nothing.
pub open spec fn field_input_outcome(
    u: User,
    field: ProfileField,
    text: Seq<char>,
    reply: Reply,
    effects: Seq<Effect>,
) -> bool {
    match field {
        ProfileField::Name => {
            if valid_name(text) {
                &&& reply == Reply::FieldSaved { field: ProfileField::Name }
                &&& effects.len() == 2
                &&& effects[0] matches Effect::SetField { user_id, value } && user_id == u.id && (
                value matches FieldValue::Name(n) && n@ == text)
                &&& effects[1] == Effect::DeleteSession
            } else {
                reply == Reply::InvalidFieldValue { field: ProfileField::Name } && effects.len()
                    == 0
            }
        },
        ProfileField::Age => {
            if parse_number_spec(text) matches Some(v) && v <= 255 {
                &&& reply == Reply::FieldSaved { field: ProfileField::Age }
                &&& effects.len() == 2
                &&& effects[0] matches Effect::SetField { user_id, value } && user_id == u.id && (
                value matches FieldValue::Age(a) && a as int == parse_number_spec(text)->Some_0)
                &&& effects[1] == Effect::DeleteSession
            } else {
                reply == Reply::InvalidFieldValue { field: ProfileField::Age } && effects.len()
                    == 0
            }
        },
        ProfileField::Gender => {
            if text.len() >= 1 {
                &&& reply == Reply::FieldSaved { field: ProfileField::Gender }
                &&& effects.len() == 2
                &&& effects[0] matches Effect::SetField { user_id, value } && user_id == u.id && (
                value matches FieldValue::Gender(g) && g@ == text)
                &&& effects[1] == Effect::DeleteSession
            } else {
                reply == Reply::InvalidFieldValue { field: ProfileField::Gender } && effects.len()
                    == 0
            }
        },
        ProfileField::Bio => {
            if text.len() >= 1 {
                &&& reply == Reply::FieldSaved { field: ProfileField::Bio }
                &&& effects.len() == 2
                &&& effects[0] matches Effect::SetField { user_id, value } && user_id == u.id && (
                value matches FieldValue::Bio(b) && b@ == text)
                &&& effects[1] == Effect::DeleteSession
            } else {
                reply == Reply::InvalidFieldValue { field: ProfileField::Bio } && effects.len()
                    == 0
            }
        },
        ProfileField::Location => {
            if text.len() >= 1 {
                &&& reply == Reply::FieldSaved { field: ProfileField::Location }
                &&& effects.len() == 2
                &&& effects[0] matches Effect::SetField { user_id, value } && user_id == u.id && (
                value matches FieldValue::Location { text: lt, latitude_micro, longitude_micro }
                    && (lt matches Some(l) && l@ == text) && latitude_micro is None
                    && longitude_micro is None)
                &&& effects[1] == Effect::DeleteSession
            } else {
                reply == Reply::InvalidFieldValue { field: ProfileField::Location }
                    && effects.len() == 0
            }
        },
    }
}

/// Step input for the media-deletion session: a valid choice whose key
/// still exists removes it, deletes the blob and ends the session; a valid
/// choice whose key is gone only ends the session; an invalid choice
/// re-prompts and changes neither the session nor the row.
pub open spec fn media_choice_outcome(
    u: User,
    listed: Seq<Seq<char>>,
    text: Seq<char>,
    reply: Reply,
    effects: Seq<Effect>,
) -> bool {
    if parse_number_spec(text) matches Some(n) && 1 <= n <= listed.len() {
        let n = parse_number_spec(text)->Some_0;
        let key = listed[n - 1];
        if u.media_keys.deep_view().contains(key) {
            &&& reply == Reply::MediaDeleted
            &&& effects.len() == 3
            &&& effects[0] matches Effect::SetMediaKeys { user_id, media_keys } && user_id == u.id
                && media_keys.deep_view() == spec_remove_media(u.media_keys.deep_view(), key)
            &&& effects[1] matches Effect::DeleteBlob { key: k } && k@ == key
            &&& effects[2] == Effect::DeleteSession
        } else {
            &&& reply == Reply::MediaGone
            &&& effects.len() == 1
            &&& effects[0] == Effect::DeleteSession
        }
    } else {
        reply == Reply::InvalidSelection && effects.len() == 0
    }
}

/// Step input for whichever session is active.
pub open spec fn session_input_outcome(
    u: User,
    step: SessionStep,
    text: Seq<char>,
    reply: Reply,
    effects: Seq<Effect>,
    record: Option<String>,
) -> bool {
    &&& record == Some(u.id)
    &&& match step {
        SessionStep::AwaitingFieldValue { field } => field_input_outcome(
            u,
            field,
            text,
            reply,
            effects,
        ),
        SessionStep::AwaitingMediaChoice { listed_keys } => media_choice_outcome(
            u,
            listed_keys.deep_view(),
            text,
            reply,
            effects,
        ),
    }
}

/// Free text with no session: the onboarding name-entry step for an
/// onboarding user without a name, a generic fallback for everyone else.
pub open spec fn free_text_outcome(
    u: User,
    text: Seq<char>,
    reply: Reply,
    effects: Seq<Effect>,
    record: Option<String>,
) -> bool {
    &&& record == Some(u.id)
    &&& if u.state == UserState::Onboarding && u.name is None {
        if valid_name(text) {
            &&& reply matches Reply::NameSaved { name } && name@ == text
            &&& effects.len() == 1
            &&& effects[0] matches Effect::SetStateAndName { user_id, name: n, state } && user_id
                == u.id && (n matches Some(nm) && nm@ == text) && state == UserState::Active
        } else {
            reply == Reply::InvalidName && effects.len() == 0
        }
    } else {
        reply == Reply::Fallback && effects.len() == 0
    }
}

/// The `/start` handler: creates the account on first contact, otherwise
/// re-prompts or activates depending on the lifecycle state. Blocked users
/// are rejected by the dispatcher before any handler runs.
pub fn handle_start_command(
    user: Option<&User>,
    sender: &TelegramUser,
    fresh_id: String,
    now: u64,
) -> (out: Outcome)
    requires
        user matches Some(u) ==> u.state != UserState::Blocked && user_wf(*u),
    ensures
        user is None ==> start_new_outcome(
            *sender,
            fresh_id,
            now,
            out.reply,
            out.effects@,
            out.record_interaction_for,
        ),
        user matches Some(u) ==> start_existing_outcome(
            *u,
            out.reply,
            out.effects@,
            out.record_interaction_for,
        ),
        !out.session_stale,
{
    match user {
        None => {
            let record = clone_string(&fresh_id);
            let created = new_user(fresh_id, sender.id, clone_opt_string(&sender.username), now);
            let mut effects: Vec<Effect> = Vec::new();
            effects.push(Effect::CreateUser(created));
            Outcome {
                reply: Reply::AskName,
                effects,
                session_stale: false,
                record_interaction_for: Some(record),
            }
        },
        Some(u) => {
            let record = Some(clone_string(&u.id));
            let rbac = RBACService::new();
            if !rbac.check_permission(u.roles.as_slice(), "/start") {
                return Outcome {
                    reply: Reply::PermissionDenied,
                    effects: Vec::new(),
                    session_stale: false,
                    record_interaction_for: record,
                };
            }
            match &u.name {
                None => Outcome {
                    reply: Reply::AskName,
                    effects: Vec::new(),
                    session_stale: false,
                    record_interaction_for: record,
                },
                Some(n) => {
                    if u.state == UserState::Active {
                        Outcome {
                            reply: Reply::WelcomeBack { name: clone_string(n) },
                            effects: Vec::new(),
                            session_stale: false,
                            record_interaction_for: record,
                        }
                    } else {
                        let mut effects: Vec<Effect> = Vec::new();
                        effects.push(
                            Effect::SetStateAndName {
                                user_id: clone_string(&u.id),
                                name: clone_opt_string(&u.name),
                                state: UserState::Active,
                            },
                        );
                        Outcome {
                            reply: Reply::Activated { name: clone_string(n) },
                            effects,
                            session_stale: false,
                            record_interaction_for: record,
                        }
                    }
                },
            }
        },
    }
}

/// The `/profile` handler: initiates the media-deletion or field-editing
/// flow, or shows the profile view.
pub fn handle_profile_command(user: &User, tokens: &Vec<String>) -> (out: Outcome)
    requires
        user.state != UserState::Blocked,
        user_wf(*user),
    ensures
        profile_outcome(*user, tokens.deep_view(), out.reply, out.effects@),
        out.record_interaction_for == Some(user.id),
        !out.session_stale,
{
    let record = Some(clone_string(&user.id));
    if tokens.len() >= 2 && token_matches(tokens[1].as_str(), "delete_media") {
        proof {
            assert(tokens.deep_view()[1] == tokens@[1]@);
        }
        if user.media_keys.len() == 0 {
            Outcome {
                reply: Reply::NoMedia,
                effects: Vec::new(),
                session_stale: false,
                record_interaction_for: record,
            }
        } else {
            let snapshot = clone_media_keys(&user.media_keys);
            let listed = clone_media_keys(&user.media_keys);
            let mut effects: Vec<Effect> = Vec::new();
            effects.push(
                Effect::PutSession { step: SessionStep::AwaitingMediaChoice { listed_keys: snapshot } },
            );
            Outcome {
                reply: Reply::MediaDeletePrompt { listed_keys: listed },
                effects,
                session_stale: false,
                record_interaction_for: record,
            }
        }
    } else if tokens.len() >= 3 && token_matches(tokens[1].as_str(), "edit") {
        proof {
            assert(tokens.deep_view()[1] == tokens@[1]@);
            assert(tokens.deep_view()[2] == tokens@[2]@);
        }
        match parse_field(tokens[2].as_str()) {
            Some(field) => {
                let mut effects: Vec<Effect> = Vec::new();
                effects.push(
                    Effect::PutSession { step: SessionStep::AwaitingFieldValue { field } },
                );
                Outcome {
                    reply: Reply::AskFieldValue { field },
                    effects,
                    session_stale: false,
                    record_interaction_for: record,
                }
            },
            None => Outcome {
                reply: Reply::ProfileView { display_name: clone_opt_string(&user.name) },
                effects: Vec::new(),
                session_stale: false,
                record_interaction_for: record,
            },
        }
    } else {
        proof {
            if tokens.deep_view().len() >= 2 {
                assert(tokens.deep_view()[1] == tokens@[1]@);
            }
        }
        Outcome {
            reply: Reply::ProfileView { display_name: clone_opt_string(&user.name) },
            effects: Vec::new(),
            session_stale: false,
            record_interaction_for: record,
        }
    }
}

/// The `/find_match` handler (placeholder reply).
pub fn handle_find_match_command(user: &User) -> (out: Outcome)
    ensures
        out.reply == Reply::FindMatch,
        out.effects@.len() == 0,
        out.record_interaction_for == Some(user.id),
        !out.session_stale,
{
    Outcome {
        reply: Reply::FindMatch,
        effects: Vec::new(),
        session_stale: false,
        record_interaction_for: Some(clone_string(&user.id)),
    }
}

/// The `/help` handler: the command list, with the admin section for
/// administrators.
pub fn handle_help_command(user: &User) -> (out: Outcome)
    ensures
        out.reply == (Reply::Help { admin: user.roles@.contains(Role::Admin) }),
        out.effects@.len() == 0,
        out.record_interaction_for == Some(user.id),
        !out.session_stale,
{
    let admin = roles_contain(user.roles.as_slice(), Role::Admin);
    Outcome {
        reply: Reply::Help { admin },
        effects: Vec::new(),
        session_stale: false,
        record_interaction_for: Some(clone_string(&user.id)),
    }
}

/// The `/status` handler; the authorization policy admits only
/// administrators here.
pub fn handle_admin_status_command(user: &User) -> (out: Outcome)
    ensures
        out.reply == Reply::StatusOk,
        out.effects@.len() == 0,
        out.record_interaction_for == Some(user.id),
        !out.session_stale,
{
    Outcome {
        reply: Reply::StatusOk,
        effects: Vec::new(),
        session_stale: false,
        record_interaction_for: Some(clone_string(&user.id)),
    }
}

/// Routes a tokenized slash command other than `/start` for a known,
/// non-blocked sender: unknown commands are answered generically, known
/// ones pass the authorization policy before their handler runs.
pub fn dispatch_command(user: &User, tokens: &Vec<String>, now: u64) -> (out: Outcome)
    requires
        user.state != UserState::Blocked,
        user_wf(*user),
        tokens@.len() >= 1,
        lower_chars(tokens.deep_view()[0]) != "/start"@,
    ensures
        command_outcome(
            *user,
            tokens.deep_view(),
            out.reply,
            out.effects@,
            out.record_interaction_for,
        ),
        !out.session_stale,
{
    proof {
        assert(tokens.deep_view()[0] == tokens@[0]@);
    }
    let rbac = RBACService::new();
    if token_matches(tokens[0].as_str(), "/profile") {
        if rbac.check_permission(user.roles.as_slice(), "/profile") {
            handle_profile_command(user, tokens)
        } else {
            Outcome {
                reply: Reply::PermissionDenied,
                effects: Vec::new(),
                session_stale: false,
                record_interaction_for: Some(clone_string(&user.id)),
            }
        }
    } else if token_matches(tokens[0].as_str(), "/find_match") {
        if rbac.check_permission(user.roles.as_slice(), "/find_match") {
            handle_find_match_command(user)
        } else {
            Outcome {
                reply: Reply::PermissionDenied,
                effects: Vec::new(),
                session_stale: false,
                record_interaction_for: Some(clone_string(&user.id)),
            }
        }
    } else if token_matches(tokens[0].as_str(), "/help") {
        if rbac.check_permission(user.roles.as_slice(), "/help") {
            handle_help_command(user)
        } else {
            Outcome {
                reply: Reply::PermissionDenied,
                effects: Vec::new(),
                session_stale: false,
                record_interaction_for: Some(clone_string(&user.id)),
            }
        }
    } else if token_matches(tokens[0].as_str(), "/status") {
        if rbac.check_permission(user.roles.as_slice(), "/status") {
            handle_admin_status_command(user)
        } else {
            Outcome {
                reply: Reply::PermissionDenied,
                effects: Vec::new(),
                session_stale: false,
                record_interaction_for: Some(clone_string(&user.id)),
            }
        }
    } else {
        Outcome {
            reply: Reply::UnknownCommand { token: clone_string(&tokens[0]) },
            effects: Vec::new(),
            session_stale: false,
            record_interaction_for: Some(clone_string(&user.id)),
        }
    }
}

fn commit_field_effects(user: &User, value: FieldValue) -> (effects: Vec<Effect>)
    ensures
        effects@.len() == 2,
        effects@[0] matches Effect::SetField { user_id, value: v } && user_id == user.id && v
            == value,
        effects@[1] == Effect::DeleteSession,
{
    let mut effects: Vec<Effect> = Vec::new();
    effects.push(Effect::SetField { user_id: clone_string(&user.id), value });
    effects.push(Effect::DeleteSession);
    effects
}

/// Treats the message as step input for the active editing session. Valid
/// input commits exactly one store change and ends the session; invalid
/// input re-prompts and leaves both the session and the row unchanged.
pub fn handle_session_input(user: &User, step: &SessionStep, text: &str, now: u64) -> (out:
    Outcome)
    requires
        user.state != UserState::Blocked,
        user_wf(*user),
        step_wf(*step),
    ensures
        session_input_outcome(
            *user,
            *step,
            text@,
            out.reply,
            out.effects@,
            out.record_interaction_for,
        ),
        !out.session_stale,
{
    let record = Some(clone_string(&user.id));
    match step {
        SessionStep::AwaitingFieldValue { field } => {
            match field {
                ProfileField::Name => {
                    if name_is_valid(text) {
                        let effects = commit_field_effects(
                            user,
                            FieldValue::Name(String::from_str(text)),
                        );
                        Outcome {
                            reply: Reply::FieldSaved { field: ProfileField::Name },
                            effects,
                            session_stale: false,
                            record_interaction_for: record,
                        }
                    } else {
                        Outcome {
                            reply: Reply::InvalidFieldValue { field: ProfileField::Name },
                            effects: Vec::new(),
                            session_stale: false,
                            record_interaction_for: record,
                        }
                    }
                },
                ProfileField::Age => {
                    let parsed = parse_number(text);
                    match parsed {
                        Some(v) => {
                            if v <= 255 {
                                let effects = commit_field_effects(
                                    user,
                                    FieldValue::Age(v as u8),
                                );
                                Outcome {
                                    reply: Reply::FieldSaved { field: ProfileField::Age },
                                    effects,
                                    session_stale: false,
                                    record_interaction_for: record,
                                }
                            } else {
                                Outcome {
                                    reply: Reply::InvalidFieldValue { field: ProfileField::Age },
                                    effects: Vec::new(),
                                    session_stale: false,
                                    record_interaction_for: record,
                                }
                            }
                        },
                        None => Outcome {
                            reply: Reply::InvalidFieldValue { field: ProfileField::Age },
                            effects: Vec::new(),
                            session_stale: false,
                            record_interaction_for: record,
                        },
                    }
                },
                ProfileField::Gender => {
                    if text.unicode_len() >= 1 {
                        let effects = commit_field_effects(
                            user,
                            FieldValue::Gender(String::from_str(text)),
                        );
                        Outcome {
                            reply: Reply::FieldSaved { field: ProfileField::Gender },
                            effects,
                            session_stale: false,
                            record_interaction_for: record,
                        }
                    } else {
                        Outcome {
                            reply: Reply::InvalidFieldValue { field: ProfileField::Gender },
                            effects: Vec::new(),
                            session_stale: false,
                            record_interaction_for: record,
                        }
                    }
                },
                ProfileField::Bio => {
                    if text.unicode_len() >= 1 {
                        let effects = commit_field_effects(
                            user,
                            FieldValue::Bio(String::from_str(text)),
                        );
                        Outcome {
                            reply: Reply::FieldSaved { field: ProfileField::Bio },
                            effects,
                            session_stale: false,
                            record_interaction_for: record,
                        }
                    } else {
                        Outcome {
                            reply: Reply::InvalidFieldValue { field: ProfileField::Bio },
                            effects: Vec::new(),
                            session_stale: false,
                            record_interaction_for: record,
                        }
                    }
                },
                ProfileField::Location => {
                    if text.unicode_len() >= 1 {
                        let effects = commit_field_effects(
                            user,
                            FieldValue::Location {
                                text: Some(String::from_str(text)),
                                latitude_micro: None,
                                longitude_micro: None,
                            },
                        );
                        Outcome {
                            reply: Reply::FieldSaved { field: ProfileField::Location },
                            effects,
                            session_stale: false,
                            record_interaction_for: record,
                        }
                    } else {
                        Outcome {
                            reply: Reply::InvalidFieldValue { field: ProfileField::Location },
                            effects: Vec::new(),
                            session_stale: false,
                            record_interaction_for: record,
                        }
                    }
                },
            }
        },
        SessionStep::AwaitingMediaChoice { listed_keys } => {
            let parsed = parse_number(text);
            match parsed {
                Some(n) => {
                    if 1 <= n && n <= listed_keys.len() {
                        let key = &listed_keys[n - 1];
                        proof {
                            assert(listed_keys.deep_view()[n - 1] == listed_keys@[n - 1]@);
                        }
                        if keys_contain(&user.media_keys, key.as_str()) {
                            let removed = remove_media_key_from_user(user, key.as_str(), now);
                            let mut effects: Vec<Effect> = Vec::new();
                            effects.push(
                                Effect::SetMediaKeys {
                                    user_id: clone_string(&user.id),
                                    media_keys: removed.media_keys,
                                },
                            );
                            effects.push(Effect::DeleteBlob { key: clone_string(key) });
                            effects.push(Effect::DeleteSession);
                            Outcome {
                                reply: Reply::MediaDeleted,
                                effects,
                                session_stale: false,
                                record_interaction_for: record,
                            }
                        } else {
                            let mut effects: Vec<Effect> = Vec::new();
                            effects.push(Effect::DeleteSession);
                            Outcome {
                                reply: Reply::MediaGone,
                                effects,
                                session_stale: false,
                                record_interaction_for: record,
                            }
                        }
                    } else {
                        Outcome {
                            reply: Reply::InvalidSelection,
                            effects: Vec::new(),
                            session_stale: false,
                            record_interaction_for: record,
                        }
                    }
                },
                None => Outcome {
                    reply: Reply::InvalidSelection,
                    effects: Vec::new(),
                    session_stale: false,
                    record_interaction_for: record,
                },
            }
        },
    }
}

/// Free text with no active session: the onboarding name-entry step, or a
/// generic fallback.
pub fn handle_onboarding_message(user: &User, text: &str, now: u64) -> (out: Outcome)
    requires
        user.state != UserState::Blocked,
        user_wf(*user),
    ensures
        free_text_outcome(
            *user,
            text@,
            out.reply,
            out.effects@,
            out.record_interaction_for,
        ),
        !out.session_stale,
{
    let record = Some(clone_string(&user.id));
    if user.state == UserState::Onboarding && user.name.is_none() {
        if name_is_valid(text) {
            let mut effects: Vec<Effect> = Vec::new();
            effects.push(
                Effect::SetStateAndName {
                    user_id: clone_string(&user.id),
                    name: Some(String::from_str(text)),
                    state: UserState::Active,
                },
            );
            Outcome {
                reply: Reply::NameSaved { name: String::from_str(text) },
                effects,
                session_stale: false,
                record_interaction_for: record,
            }
        } else {
            Outcome {
                reply: Reply::InvalidName,
                effects: Vec::new(),
                session_stale: false,
                record_interaction_for: record,
            }
        }
    } else {
        Outcome {
            reply: Reply::Fallback,
            effects: Vec::new(),
            session_stale: false,
            record_interaction_for: record,
        }
    }
}

/// A command text has at least its command token.
proof fn lemma_command_has_token(t: Seq<char>)
    requires
        is_command_text(t),
    ensures
        tokenize_spec(t).len() >= 1,
{
    assert(!is_space(t[0]));
}

/// The single entry point: consumes one inbound message together with the
/// resolved user row, the conversation's editing session, the configuration
/// and the clock, and produces exactly one reply plus the effects the caller
/// must apply. `fresh_id` is the identifier used if this message creates an
/// account.
///
/// Classification, in priority order: a non-text message is acknowledged
/// fixed; an unidentifiable sender fails identification; an unknown sender
/// is prompted to start unless the message is the start command; a blocked
/// account receives the fixed denial whatever the message; a command ends
/// any active session and is routed; other text feeds the active session,
/// or the onboarding name step, or the fallback.
///
/// The staleness flag is computed before dispatch, from the pre-update
/// `last_interaction_at`, and is advisory only.
pub fn dispatch_message(
    user: Option<&User>,
    session: Option<&EditingSession>,
    msg: &TelegramMessage,
    config: &EnvironmentConfig,
    now: u64,
    fresh_id: String,
) -> (out: Outcome)
    requires
        user matches Some(u) ==> user_wf(*u),
        session matches Some(s) ==> session_wf(*s),
        user is Some ==> msg.from is Some,
    ensures
        msg.text is None ==> out.reply == Reply::TextOnly && out.effects@.len() == 0
            && out.record_interaction_for is None && !out.session_stale,
        msg.text is Some && msg.from is None ==> out.reply == Reply::CannotIdentify
            && out.effects@.len() == 0 && out.record_interaction_for is None && !out.session_stale,
        msg.text matches Some(t) ==> (msg.from is Some && user is None && !is_start_text(
            trim_spec(t@),
        ) ==> out.reply == Reply::PleaseStart && out.effects@.len() == 0
            && out.record_interaction_for is None && !out.session_stale),
        msg.text matches Some(t) ==> (msg.from matches Some(sender) ==> (user is None
            && is_start_text(trim_spec(t@)) ==> start_new_outcome(
            sender,
            fresh_id,
            now,
            out.reply,
            out.effects@,
            out.record_interaction_for,
        ) && !out.session_stale)),
        user matches Some(u) ==> (msg.text is Some ==> out.session_stale == (stale_spec(
            now,
            u.last_interaction_at,
            config.session_timeout_minutes,
        ) && u.state != UserState::Onboarding)),
        user matches Some(u) ==> (msg.text is Some && u.state == UserState::Blocked ==> out.reply
            == Reply::BlockedAccount && out.effects@.len() == 0 && out.record_interaction_for
            == Some(u.id)),
        msg.text matches Some(t) ==> (user matches Some(u) ==> (session matches Some(s) ==> (
        u.state != UserState::Blocked && !is_command_text(trim_spec(t@))
            ==> session_input_outcome(
            *u,
            s.step,
            trim_spec(t@),
            out.reply,
            out.effects@,
            out.record_interaction_for,
        )))),
        msg.text matches Some(t) ==> (user matches Some(u) ==> (u.state != UserState::Blocked
            && session is Some && is_command_text(trim_spec(t@)) ==> out.effects@.len() >= 1
            && out.effects@[0] == Effect::DeleteSession && (if is_start_text(trim_spec(t@)) {
            start_existing_outcome(
                *u,
                out.reply,
                out.effects@.drop_first(),
                out.record_interaction_for,
            )
        } else {
            command_outcome(
                *u,
                tokenize_spec(trim_spec(t@)),
                out.reply,
                out.effects@.drop_first(),
                out.record_interaction_for,
            )
        }))),
        msg.text matches Some(t) ==> (user matches Some(u) ==> (u.state != UserState::Blocked
            && session is None && is_command_text(trim_spec(t@)) && is_start_text(trim_spec(t@))
            ==> start_existing_outcome(
            *u,
            out.reply,
            out.effects@,
            out.record_interaction_for,
        ))),
        msg.text matches Some(t) ==> (user matches Some(u) ==> (u.state != UserState::Blocked
            && session is None && is_command_text(trim_spec(t@)) && !is_start_text(trim_spec(t@))
            ==> command_outcome(
            *u,
            tokenize_spec(trim_spec(t@)),
            out.reply,
            out.effects@,
            out.record_interaction_for,
        ))),
        msg.text matches Some(t) ==> (user matches Some(u) ==> (u.state != UserState::Blocked
            && session is None && !is_command_text(trim_spec(t@)) ==> free_text_outcome(
            *u,
            trim_spec(t@),
            out.reply,
            out.effects@,
            out.record_interaction_for,
        ))),
{
    match &msg.text {
        None => Outcome {
            reply: Reply::TextOnly,
            effects: Vec::new(),
            session_stale: false,
            record_interaction_for: None,
        },
        Some(t) => {
            match &msg.from {
                None => Outcome {
                    reply: Reply::CannotIdentify,
                    effects: Vec::new(),
                    session_stale: false,
                    record_interaction_for: None,
                },
                Some(sender) => {
                    let trimmed = trim(t.as_str());
                    let tokens = tokenize(trimmed);
                    let cmd = is_command(trimmed);
                    let start = if tokens.len() > 0 {
                        proof {
                            assert(tokens.deep_view()[0] == tokens@[0]@);
                        }
                        token_matches(tokens[0].as_str(), "/start")
                    } else {
                        false
                    };
                    proof {
                        assert(tokens.deep_view().len() == tokens@.len());
                        assert(start == is_start_text(trim_spec(t@)));
                    }
                    match user {
                        None => {
                            if start {
                                handle_start_command(None, sender, fresh_id, now)
                            } else {
                                Outcome {
                                    reply: Reply::PleaseStart,
                                    effects: Vec::new(),
                                    session_stale: false,
                                    record_interaction_for: None,
                                }
                            }
                        },
                        Some(u) => {
                            let stale = session_is_stale(
                                now,
                                u.last_interaction_at,
                                config.session_timeout_minutes,
                            ) && u.state != UserState::Onboarding;
                            if u.state == UserState::Blocked {
                                return Outcome {
                                    reply: Reply::BlockedAccount,
                                    effects: Vec::new(),
                                    session_stale: stale,
                                    record_interaction_for: Some(clone_string(&u.id)),
                                };
                            }
                            proof {
                                if cmd {
                                    lemma_command_has_token(trim_spec(t@));
                                }
                            }
                            let mut out = match session {
                                Some(s) => {
                                    if !cmd {
                                        handle_session_input(u, &s.step, trimmed, now)
                                    } else {
                                        let mut inner = if start {
                                            handle_start_command(Some(u), sender, fresh_id, now)
                                        } else {
                                            dispatch_command(u, &tokens, now)
                                        };
                                        let ghost pre = inner.effects@;
                                        inner.effects.insert(0, Effect::DeleteSession);
                                        proof {
                                            assert(inner.effects@.drop_first() =~= pre);
                                        }
                                        inner
                                    }
                                },
                                None => {
                                    if cmd {
                                        if start {
                                            handle_start_command(Some(u), sender, fresh_id, now)
                                        } else {
                                            dispatch_command(u, &tokens, now)
                                        }
                                    } else {
                                        handle_onboarding_message(u, trimmed, now)
                                    }
                                },
                            };
                            out.session_stale = stale;
                            out
                        },
                    }
                },
            }
        },
    }
}

} // verus!
