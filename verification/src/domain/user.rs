use vstd::prelude::*;

use crate::domain::errors::AppResult;
use crate::domain::message::IncomingMessage;
use crate::domain::notification_preferences::NotificationPreferences;
use crate::text::{chars_of, clone_opt_string, opt_view, push_str, string_of};
use crate::time::Timestamp;

verus! {

/// Default fleet-wide timezone.
pub const DEFAULT_USER_TIMEZONE: &'static str = "Europe/Moscow";
pub const DEFAULT_QUIET_HOURS_START_MIN: i32 = 1320;
pub const DEFAULT_QUIET_HOURS_END_MIN: i32 = 480;

#[derive(Debug, Clone, Copy, PartialEq, Eq, Structural)]
pub enum UserRole {
    User,
    Manager,
    Admin,
}

impl UserRole {
    pub open spec fn spec_is_admin(self) -> bool {
        self == UserRole::Admin
    }

    pub open spec fn spec_is_manager_or_admin(self) -> bool {
        self == UserRole::Manager || self == UserRole::Admin
    }

    pub fn is_admin(self) -> (r: bool)
        ensures
            r == self.spec_is_admin(),
    {
        match self {
            UserRole::Admin => true,
            _ => false,
        }
    }

    pub fn is_manager_or_admin(self) -> (r: bool)
        ensures
            r == self.spec_is_manager_or_admin(),
    {
        match self {
            UserRole::Manager | UserRole::Admin => true,
            _ => false,
        }
    }

    pub open spec fn spec_as_str(self) -> Seq<char> {
        match self {
            UserRole::User => "user"@,
            UserRole::Manager => "manager"@,
            UserRole::Admin => "admin"@,
        }
    }

    /// Display text of the role.
    pub fn as_str(self) -> (r: &'static str)
        ensures
            r@ == self.spec_as_str(),
    {
        match self {
            UserRole::User => "user",
            UserRole::Manager => "manager",
            UserRole::Admin => "admin",
        }
    }
}

/// Step of the onboarding flow, stored on `users.onboarding_state`.
#[derive(Debug, Clone, Copy, PartialEq, Eq, Structural)]
pub enum OnboardingState {
    AwaitingFirstName,
    AwaitingLastName,
    AwaitingEmployeeLink,
    Completed,
}

impl OnboardingState {
    pub open spec fn spec_storage_value(self) -> Seq<char> {
        match self {
            OnboardingState::AwaitingFirstName => "awaiting_first_name"@,
            OnboardingState::AwaitingLastName => "awaiting_last_name"@,
            OnboardingState::AwaitingEmployeeLink => "awaiting_employee_link"@,
            OnboardingState::Completed => "completed"@,
        }
    }

    pub fn as_storage_value(self) -> (r: &'static str)
        ensures
            r@ == self.spec_storage_value(),
    {
        match self {
            OnboardingState::AwaitingFirstName => "awaiting_first_name",
            OnboardingState::AwaitingLastName => "awaiting_last_name",
            OnboardingState::AwaitingEmployeeLink => "awaiting_employee_link",
            OnboardingState::Completed => "completed",
        }
    }

    pub open spec fn spec_from_storage_value(value: Option<Seq<char>>) -> OnboardingState {
        match value {
            Some(v) => if v == "awaiting_first_name"@ {
                OnboardingState::AwaitingFirstName
            } else if v == "awaiting_last_name"@ {
                OnboardingState::AwaitingLastName
            } else if v == "awaiting_employee_link"@ {
                OnboardingState::AwaitingEmployeeLink
            } else {
                OnboardingState::Completed
            },
            None => OnboardingState::Completed,
        }
    }

    /// Reads a stored state.  Missing and unknown values read as `Completed`
    /// so legacy accounts are never locked out.
    pub fn from_storage_value(value: Option<&str>) -> (r: OnboardingState)
        ensures
            r == OnboardingState::spec_from_storage_value(match value {
                Some(v) => Some(v@),
                None => None,
            }),
    {
        match value {
            Some(v) => {
                if crate::text::str_equal(v, "awaiting_first_name") {
                    OnboardingState::AwaitingFirstName
                } else if crate::text::str_equal(v, "awaiting_last_name") {
                    OnboardingState::AwaitingLastName
                } else if crate::text::str_equal(v, "awaiting_employee_link") {
                    OnboardingState::AwaitingEmployeeLink
                } else {
                    OnboardingState::Completed
                }
            },
            None => OnboardingState::Completed,
        }
    }

    pub open spec fn spec_is_terminal(self) -> bool {
        self == OnboardingState::Completed
    }

    pub fn is_terminal(self) -> (r: bool)
        ensures
            r == self.spec_is_terminal(),
    {
        match self {
            OnboardingState::Completed => true,
            _ => false,
        }
    }
}

/// Reading back a stored onboarding state gives the state that was stored.
pub proof fn onboarding_state_roundtrip(s: OnboardingState)
    ensures
        OnboardingState::spec_from_storage_value(Some(s.spec_storage_value())) == s,
{
    reveal_strlit("awaiting_first_name");
    reveal_strlit("awaiting_last_name");
    reveal_strlit("awaiting_employee_link");
    reveal_strlit("completed");
    let v = s.spec_storage_value();
    match s {
        OnboardingState::AwaitingFirstName => {},
        OnboardingState::AwaitingLastName => {
            assert(v != "awaiting_first_name"@) by { assert(v[9] != "awaiting_first_name"@[9]); }
        },
        OnboardingState::AwaitingEmployeeLink => {
            assert(v != "awaiting_first_name"@) by { assert(v[9] != "awaiting_first_name"@[9]); }
            assert(v != "awaiting_last_name"@) by { assert(v[9] != "awaiting_last_name"@[9]); }
        },
        OnboardingState::Completed => {
            assert(v != "awaiting_first_name"@) by { assert(v[0] != "awaiting_first_name"@[0]); }
            assert(v != "awaiting_last_name"@) by { assert(v[0] != "awaiting_last_name"@[0]); }
            assert(v != "awaiting_employee_link"@) by { assert(v[0] != "awaiting_employee_link"@[0]); }
        },
    }
}

#[derive(Debug)]
pub struct User {
    pub id: Option<i64>,
    pub telegram_id: i64,
    pub last_chat_id: Option<i64>,
    pub telegram_username: Option<String>,
    pub full_name: Option<String>,
    pub first_name: Option<String>,
    pub last_name: Option<String>,
    pub linked_employee_id: Option<i64>,
    pub is_employee: bool,
    pub role: UserRole,
    pub onboarding_state: OnboardingState,
    pub onboarding_version: i64,
    pub timezone: String,
    pub quiet_hours_start_min: i32,
    pub quiet_hours_end_min: i32,
    pub deactivated_at: Option<Timestamp>,
    pub created_at: Timestamp,
    pub updated_at: Timestamp,
}

/// Where a rendered user name came from.
#[derive(Debug, Clone, Copy, PartialEq, Eq, Structural)]
pub enum DisplayNameKind {
    /// First and last name from onboarding.
    FullOnboarded,
    /// Only the first name is known (onboarding interrupted).
    FirstOnly,
    /// The Telegram display name (pre-onboarding users).
    TelegramFullName,
    /// The Telegram username.
    TelegramUsername,
    /// Nothing better is known.
    Anonymous,
}

/// Source-of-truth name rendering for the UI, with its provenance.
#[derive(Debug)]
pub struct DisplayName {
    value: String,
    kind: DisplayNameKind,
}

impl DisplayName {
    pub closed spec fn spec_value(&self) -> Seq<char> {
        self.value@
    }

    pub closed spec fn spec_kind(&self) -> DisplayNameKind {
        self.kind
    }

    pub fn as_str(&self) -> (r: &str)
        ensures
            r@ == self.spec_value(),
    {
        self.value.as_str()
    }

    pub fn kind(&self) -> (r: DisplayNameKind)
        ensures
            r == self.spec_kind(),
    {
        self.kind
    }

    /// True when the name came from onboarding (first + last).
    pub fn is_onboarded(&self) -> (r: bool)
        ensures
            r == (self.spec_kind() == DisplayNameKind::FullOnboarded),
    {
        match self.kind {
            DisplayNameKind::FullOnboarded => true,
            _ => false,
        }
    }

    /// The rendered text (what `Display` shows).
    pub fn to_text(&self) -> (r: String)
        ensures
            r@ == self.spec_value(),
    {
        self.value.clone()
    }
}

pub open spec fn nonempty(o: Option<Seq<char>>) -> bool {
    o matches Some(v) && v.len() > 0
}

/// Name priority: onboarding first + last ≫ first alone ≫ Telegram display
/// name ≫ `@username` ≫ "Пользователь".
pub open spec fn display_name_of(
    first: Option<Seq<char>>,
    last: Option<Seq<char>>,
    full: Option<Seq<char>>,
    username: Option<Seq<char>>,
) -> (Seq<char>, DisplayNameKind) {
    if nonempty(first) && nonempty(last) {
        (first.unwrap() + " "@ + last.unwrap(), DisplayNameKind::FullOnboarded)
    } else if nonempty(first) {
        (first.unwrap(), DisplayNameKind::FirstOnly)
    } else if nonempty(full) {
        (full.unwrap(), DisplayNameKind::TelegramFullName)
    } else if nonempty(username) {
        ("@"@ + username.unwrap(), DisplayNameKind::TelegramUsername)
    } else {
        ("Пользователь"@, DisplayNameKind::Anonymous)
    }
}

fn is_nonempty(o: &Option<String>) -> (r: bool)
    ensures
        r == nonempty(opt_view(*o)),
{
    match o {
        Some(v) => v.as_str().unicode_len() > 0,
        None => false,
    }
}

impl User {
    pub open spec fn spec_display_name(&self) -> (Seq<char>, DisplayNameKind) {
        display_name_of(
            opt_view(self.first_name),
            opt_view(self.last_name),
            opt_view(self.full_name),
            opt_view(self.telegram_username),
        )
    }

    /// A new user record for the sender of `message`, with default timezone
    /// and quiet hours and a completed onboarding state.
    pub fn from_message(message: &IncomingMessage, role: UserRole, is_employee: bool) -> (r: User)
        ensures
            r.id is None,
            r.telegram_id == message.sender_id,
            r.last_chat_id == Some(message.chat_id),
            opt_view(r.telegram_username) == opt_view(message.sender_username),
            opt_view(r.full_name) == Some(message.sender_name@),
            r.first_name is None,
            r.last_name is None,
            r.linked_employee_id is None,
            r.is_employee == is_employee,
            r.role == role,
            r.onboarding_state == OnboardingState::Completed,
            r.onboarding_version == 0,
            r.timezone@ == DEFAULT_USER_TIMEZONE@,
            r.quiet_hours_start_min == DEFAULT_QUIET_HOURS_START_MIN,
            r.quiet_hours_end_min == DEFAULT_QUIET_HOURS_END_MIN,
            r.deactivated_at is None,
            r.created_at == message.timestamp,
            r.updated_at == message.timestamp,
    {
        User {
            id: None,
            telegram_id: message.sender_id,
            last_chat_id: Some(message.chat_id),
            telegram_username: clone_opt_string(&message.sender_username),
            full_name: Some(message.sender_name.clone()),
            first_name: None,
            last_name: None,
            linked_employee_id: None,
            is_employee,
            role,
            onboarding_state: OnboardingState::Completed,
            onboarding_version: 0,
            timezone: String::from_str(DEFAULT_USER_TIMEZONE),
            quiet_hours_start_min: DEFAULT_QUIET_HOURS_START_MIN,
            quiet_hours_end_min: DEFAULT_QUIET_HOURS_END_MIN,
            deactivated_at: None,
            created_at: message.timestamp,
            updated_at: message.timestamp,
        }
    }

    /// The rendered name (see [`User::display_name_object`]).
    pub fn display_name(&self) -> (r: String)
        ensures
            r@ == self.spec_display_name().0,
    {
        self.display_name_object().value
    }

    /// The user's name with its provenance, by the priority of
    /// [`display_name_of`].
    pub fn display_name_object(&self) -> (r: DisplayName)
        ensures
            (r.spec_value(), r.spec_kind()) == self.spec_display_name(),
    {
        if is_nonempty(&self.first_name) && is_nonempty(&self.last_name) {
            let first = self.first_name.as_ref().unwrap();
            let last = self.last_name.as_ref().unwrap();
            let mut out: Vec<char> = chars_of(first.as_str());
            push_str(&mut out, " ");
            push_str(&mut out, last.as_str());
            return DisplayName { value: string_of(out.as_slice()), kind: DisplayNameKind::FullOnboarded };
        }
        if is_nonempty(&self.first_name) {
            return DisplayName {
                value: self.first_name.as_ref().unwrap().clone(),
                kind: DisplayNameKind::FirstOnly,
            };
        }
        if is_nonempty(&self.full_name) {
            return DisplayName {
                value: self.full_name.as_ref().unwrap().clone(),
                kind: DisplayNameKind::TelegramFullName,
            };
        }
        if is_nonempty(&self.telegram_username) {
            let mut out: Vec<char> = chars_of("@");
            push_str(&mut out, self.telegram_username.as_ref().unwrap().as_str());
            return DisplayName { value: string_of(out.as_slice()), kind: DisplayNameKind::TelegramUsername };
        }
        DisplayName { value: String::from_str("Пользователь"), kind: DisplayNameKind::Anonymous }
    }

    pub open spec fn spec_is_onboarded(&self) -> bool {
        self.onboarding_state == OnboardingState::Completed
            && nonempty(opt_view(self.first_name))
            && nonempty(opt_view(self.last_name))
    }

    /// Onboarding is complete and both name parts are present.
    pub fn is_onboarded(&self) -> (r: bool)
        ensures
            r == self.spec_is_onboarded(),
    {
        self.onboarding_state.is_terminal() && is_nonempty(&self.first_name) && is_nonempty(&self.last_name)
    }

    /// The user's delivery preferences, validated from the stored columns.
    pub fn notification_preferences(&self) -> (r: AppResult<NotificationPreferences>)
        ensures
            r is Ok <==> NotificationPreferences::spec_valid(
                self.timezone@,
                self.quiet_hours_start_min,
                self.quiet_hours_end_min,
            ),
            r matches Ok(p) ==> p.wf() && p.spec_timezone() == self.timezone@
                && p.spec_quiet_start_min() == self.quiet_hours_start_min
                && p.spec_quiet_end_min() == self.quiet_hours_end_min,
            r matches Err(e) ==> e.kind() == crate::domain::errors::ErrorKind::Validation && if !crate::time::tz_known(self.timezone@) {
                e.code_view() == "NOTIFICATION_PREFERENCES_UNKNOWN_TZ"@ && e.message_view() == "unknown timezone"@
            } else {
                e.code_view() == "NOTIFICATION_PREFERENCES_MINUTE_OUT_OF_RANGE"@
                    && e.message_view() == "quiet hours must lie in [0, 1440)"@
            },
    {
        NotificationPreferences::new(
            self.timezone.as_str(),
            self.quiet_hours_start_min,
            self.quiet_hours_end_min,
        )
    }
}

} // verus!
