//! The outbound vocabulary of the dispatcher: one structured reply per
//! inbound message, and its exact rendering to the text the gateway sends.
use vstd::prelude::*;
use vstd::string::*;
use crate::session::ProfileField;
use crate::user::MAX_USER_MEDIA_ITEMS;

verus! {

/// Everything the dispatcher can answer. Payloads carry the values echoed
/// into the text.
#[derive(Debug, Clone, PartialEq)]
pub enum Reply {
    /// The message carried no identifiable sender.
    CannotIdentify,
    /// The sender is unknown and did not issue the start command.
    PleaseStart,
    /// The message carried no text body.
    TextOnly,
    /// The account is blocked; fixed denial for every command.
    BlockedAccount,
    /// The authorization policy denied the command.
    PermissionDenied,
    UnknownCommand { token: String },
    /// Onboarding prompt for a display name.
    AskName,
    InvalidName,
    /// Start for a complete profile: the main menu.
    WelcomeBack { name: String },
    /// Start found a name but an incomplete profile: activation.
    Activated { name: String },
    /// Onboarding accepted the candidate name.
    NameSaved { name: String },
    /// Free text with nothing to do.
    Fallback,
    ProfileView { display_name: Option<String> },
    FindMatch,
    Help { admin: bool },
    StatusOk,
    /// Prompt of a field-editing flow.
    AskFieldValue { field: ProfileField },
    FieldSaved { field: ProfileField },
    /// Re-prompt of a field-editing flow; the session is kept.
    InvalidFieldValue { field: ProfileField },
    /// Prompt of the media-deletion flow, listing the snapshot.
    MediaDeletePrompt { listed_keys: Vec<String> },
    /// Re-prompt of the media-deletion flow; the session is kept.
    InvalidSelection,
    MediaDeleted,
    /// The chosen key no longer exists on the row; the flow ends.
    MediaGone,
    NoMedia,
}

pub open spec fn reply_wf(reply: Reply) -> bool {
    match reply {
        Reply::MediaDeletePrompt { listed_keys } => 1 <= listed_keys@.len()
            <= MAX_USER_MEDIA_ITEMS,
        _ => true,
    }
}

/// The one-based label of a listed media item.
pub open spec fn digit_label(n: int) -> Seq<char> {
    if n == 1 {
        "1"@
    } else if n == 2 {
        "2"@
    } else if n == 3 {
        "3"@
    } else if n == 4 {
        "4"@
    } else {
        "5"@
    }
}

fn digit_label_exec(n: usize) -> (label: &'static str)
    requires
        1 <= n <= MAX_USER_MEDIA_ITEMS,
    ensures
        label@ == digit_label(n as int),
{
    match n {
        1 => "1",
        2 => "2",
        3 => "3",
        4 => "4",
        _ => "5",
    }
}

/// One listed line: a newline, the one-based label, an escaped dot, and the
/// key in backticks.
pub open spec fn media_line(n: int, key: Seq<char>) -> Seq<char> {
    "\n"@ + digit_label(n) + "\\. `"@ + key + "`"@
}

/// The listing of a snapshot, one line per key, numbered from one.
pub open spec fn media_lines(keys: Seq<Seq<char>>) -> Seq<char>
    decreases keys.len(),
{
    if keys.len() == 0 {
        Seq::empty()
    } else {
        media_lines(keys.drop_last()) + media_line(keys.len() as int, keys.last())
    }
}

/// The full media-deletion prompt.
pub open spec fn media_prompt_spec(keys: Seq<Seq<char>>) -> Seq<char> {
    "Which media item would you like to delete?"@ + media_lines(keys)
}

fn render_media_prompt(listed_keys: &Vec<String>) -> (text: String)
    requires
        1 <= listed_keys@.len() <= MAX_USER_MEDIA_ITEMS,
    ensures
        text@ == media_prompt_spec(listed_keys.deep_view()),
{
    let ghost dv = listed_keys.deep_view();
    let mut out = String::from_str("Which media item would you like to delete?");
    let mut i: usize = 0;
    proof {
        assert(dv.take(0) =~= Seq::<Seq<char>>::empty());
        assert(out@ + media_lines(dv.take(0)) =~= out@);
    }
    while i < listed_keys.len()
        invariant
            0 <= i <= listed_keys@.len(),
            listed_keys@.len() <= MAX_USER_MEDIA_ITEMS,
            dv == listed_keys.deep_view(),
            dv.len() == listed_keys@.len(),
            out@ == "Which media item would you like to delete?"@ + media_lines(dv.take(i as int)),
        decreases listed_keys@.len() - i,
    {
        let ghost pre = out@;
        out.append("\n");
        out.append(digit_label_exec(i + 1));
        out.append("\\. `");
        out.append(listed_keys[i].as_str());
        out.append("`");
        proof {
            let t2 = dv.take(i as int + 1);
            assert(t2.drop_last() =~= dv.take(i as int));
            assert(t2.last() == dv[i as int]);
            assert(out@ =~= pre + media_line(i as int + 1, dv[i as int]));
        }
        i += 1;
    }
    proof {
        assert(dv.take(dv.len() as int) =~= dv);
    }
    out
}

/// Renders a reply to the exact text the gateway sends to the conversation.
pub fn render_reply(reply: &Reply) -> (text: String)
    requires
        reply_wf(*reply),
    ensures
        *reply == Reply::CannotIdentify ==> text@ == "Cannot identify sender."@,
        *reply == Reply::PleaseStart ==> text@ == "Please use /start to begin."@,
        *reply == Reply::TextOnly ==> text@ == "I only understand text."@,
        *reply == Reply::BlockedAccount ==> text@ == "Your account is blocked."@,
        *reply == Reply::PermissionDenied ==> text@ == "You don't have permission for that."@,
        (*reply) matches Reply::UnknownCommand { token } ==> text@ == "Unknown command: "@
            + token@ + ". Try /help."@,
        *reply == Reply::AskName ==> text@ == "Welcome! What's your name?"@,
        *reply == Reply::InvalidName ==> text@ == "Invalid name. 1-50 chars, no commands."@,
        (*reply) matches Reply::WelcomeBack { name } ==> text@ == "Welcome back, "@ + name@
            + "!\n\nMenu:\n/find_match\n/profile\n/help"@,
        (*reply) matches Reply::Activated { name } ==> text@ == "Thanks, "@ + name@
            + "! Profile active.\n\nMenu:\n/find_match\n/profile\n/help"@,
        (*reply) matches Reply::NameSaved { name } ==> text@ == "Great, "@ + name@
            + "! Profile complete.\n\nMenu:\n/find_match\n/profile\n/help"@,
        *reply == Reply::Fallback ==> text@ == "Not sure what you mean. Try /start."@,
        (*reply) matches Reply::ProfileView { display_name: Some(n) } ==> text@
            == "Placeholder for /profile. Hello, "@ + n@ + "!"@,
        (*reply) matches Reply::ProfileView { display_name: None } ==> text@
            == "Placeholder for /profile. Hello, User!"@,
        *reply == Reply::FindMatch ==> text@
            == "Placeholder for /find_match. Searching for potential matches..."@,
        (*reply) matches Reply::Help { admin } ==> text@ == (if admin {
            "Available commands:\n\n/start - Restart interaction or show main menu\n/profile - View or manage your profile\n/find_match - Find a match\n/help - Show this help message\n\nAdmin Commands:\n/status - Check bot status"@
        } else {
            "Available commands:\n\n/start - Restart interaction or show main menu\n/profile - View or manage your profile\n/find_match - Find a match\n/help - Show this help message"@
        }),
        *reply == Reply::StatusOk ==> text@ == "Bot status: Healthy! (Admin View)"@,
        (*reply) matches Reply::AskFieldValue { field } ==> text@ == (match field {
            ProfileField::Name => "Send the new name."@,
            ProfileField::Age => "Send the new age (a number)."@,
            ProfileField::Gender => "Send the new gender."@,
            ProfileField::Bio => "Send the new bio."@,
            ProfileField::Location => "Send the new location."@,
        }),
        (*reply) matches Reply::FieldSaved { field } ==> text@ == (match field {
            ProfileField::Name => "Name updated."@,
            ProfileField::Age => "Age updated."@,
            ProfileField::Gender => "Gender updated."@,
            ProfileField::Bio => "Bio updated."@,
            ProfileField::Location => "Location updated."@,
        }),
        (*reply) matches Reply::InvalidFieldValue { field } ==> text@ == (match field {
            ProfileField::Name => "Invalid name. 1-50 chars, no commands."@,
            ProfileField::Age => "Invalid age. Send a whole number between 0 and 255."@,
            ProfileField::Gender => "Value cannot be empty."@,
            ProfileField::Bio => "Value cannot be empty."@,
            ProfileField::Location => "Value cannot be empty."@,
        }),
        (*reply) matches Reply::MediaDeletePrompt { listed_keys } ==> text@ == media_prompt_spec(
            listed_keys.deep_view(),
        ),
        *reply == Reply::InvalidSelection ==> text@
            == "Invalid selection. Reply with one of the listed numbers."@,
        *reply == Reply::MediaDeleted ==> text@ == "Media item deleted."@,
        *reply == Reply::MediaGone ==> text@
            == "That media item no longer exists. Please start again."@,
        *reply == Reply::NoMedia ==> text@ == "You have no media items."@,
{
    match reply {
        Reply::CannotIdentify => String::from_str("Cannot identify sender."),
        Reply::PleaseStart => String::from_str("Please use /start to begin."),
        Reply::TextOnly => String::from_str("I only understand text."),
        Reply::BlockedAccount => String::from_str("Your account is blocked."),
        Reply::PermissionDenied => String::from_str("You don't have permission for that."),
        Reply::UnknownCommand { token } => {
            let mut t = String::from_str("Unknown command: ");
            t.append(token.as_str());
            t.append(". Try /help.");
            t
        },
        Reply::AskName => String::from_str("Welcome! What's your name?"),
        Reply::InvalidName => String::from_str("Invalid name. 1-50 chars, no commands."),
        Reply::WelcomeBack { name } => {
            let mut t = String::from_str("Welcome back, ");
            t.append(name.as_str());
            t.append("!\n\nMenu:\n/find_match\n/profile\n/help");
            t
        },
        Reply::Activated { name } => {
            let mut t = String::from_str("Thanks, ");
            t.append(name.as_str());
            t.append("! Profile active.\n\nMenu:\n/find_match\n/profile\n/help");
            t
        },
        Reply::NameSaved { name } => {
            let mut t = String::from_str("Great, ");
            t.append(name.as_str());
            t.append("! Profile complete.\n\nMenu:\n/find_match\n/profile\n/help");
            t
        },
        Reply::Fallback => String::from_str("Not sure what you mean. Try /start."),
        Reply::ProfileView { display_name } => {
            match display_name {
                Some(n) => {
                    let mut t = String::from_str("Placeholder for /profile. Hello, ");
                    t.append(n.as_str());
                    t.append("!");
                    t
                },
                None => String::from_str("Placeholder for /profile. Hello, User!"),
            }
        },
        Reply::FindMatch => String::from_str(
            "Placeholder for /find_match. Searching for potential matches...",
        ),
        Reply::Help { admin } => {
            if *admin {
                String::from_str(
                    "Available commands:\n\n/start - Restart interaction or show main menu\n/profile - View or manage your profile\n/find_match - Find a match\n/help - Show this help message\n\nAdmin Commands:\n/status - Check bot status",
                )
            } else {
                String::from_str(
                    "Available commands:\n\n/start - Restart interaction or show main menu\n/profile - View or manage your profile\n/find_match - Find a match\n/help - Show this help message",
                )
            }
        },
        Reply::StatusOk => String::from_str("Bot status: Healthy! (Admin View)"),
        Reply::AskFieldValue { field } => {
            match field {
                ProfileField::Name => String::from_str("Send the new name."),
                ProfileField::Age => String::from_str("Send the new age (a number)."),
                ProfileField::Gender => String::from_str("Send the new gender."),
                ProfileField::Bio => String::from_str("Send the new bio."),
                ProfileField::Location => String::from_str("Send the new location."),
            }
        },
        Reply::FieldSaved { field } => {
            match field {
                ProfileField::Name => String::from_str("Name updated."),
                ProfileField::Age => String::from_str("Age updated."),
                ProfileField::Gender => String::from_str("Gender updated."),
                ProfileField::Bio => String::from_str("Bio updated."),
                ProfileField::Location => String::from_str("Location updated."),
            }
        },
        Reply::InvalidFieldValue { field } => {
            match field {
                ProfileField::Name => String::from_str("Invalid name. 1-50 chars, no commands."),
                ProfileField::Age => String::from_str(
                    "Invalid age. Send a whole number between 0 and 255.",
                ),
                ProfileField::Gender => String::from_str("Value cannot be empty."),
                ProfileField::Bio => String::from_str("Value cannot be empty."),
                ProfileField::Location => String::from_str("Value cannot be empty."),
            }
        },
        Reply::MediaDeletePrompt { listed_keys } => render_media_prompt(listed_keys),
        Reply::InvalidSelection => String::from_str(
            "Invalid selection. Reply with one of the listed numbers.",
        ),
        Reply::MediaDeleted => String::from_str("Media item deleted."),
        Reply::MediaGone => String::from_str(
            "That media item no longer exists. Please start again.",
        ),
        Reply::NoMedia => String::from_str("You have no media items."),
    }
}

} // verus!
