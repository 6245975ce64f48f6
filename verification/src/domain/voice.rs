//! Voice processing attempts and their small state machine:
//! queued → transcribing → transcribed, with failure from either of the
//! first two.  Terminal states are sticky.
use vstd::prelude::*;

use crate::domain::errors::{ctx_one, AppError, AppResult, ContextValue, ErrorKind};
use crate::text::str_equal;
use crate::time::Timestamp;

verus! {

#[derive(Debug, Clone, Copy, PartialEq, Eq, Structural)]
pub enum VoiceProcessingState {
    /// Freshly inserted; transcription has not started.
    Queued,
    /// Transcription in flight.
    Transcribing,
    /// Transcribed successfully.
    Transcribed,
    /// Terminal failure.
    Failed,
}

pub open spec fn voice_code(s: VoiceProcessingState) -> Seq<char> {
    match s {
        VoiceProcessingState::Queued => "queued"@,
        VoiceProcessingState::Transcribing => "transcribing"@,
        VoiceProcessingState::Transcribed => "transcribed"@,
        VoiceProcessingState::Failed => "failed"@,
    }
}

pub open spec fn voice_terminal(s: VoiceProcessingState) -> bool {
    s == VoiceProcessingState::Transcribed || s == VoiceProcessingState::Failed
}

pub open spec fn voice_transition_allowed(from: VoiceProcessingState, to: VoiceProcessingState) -> bool {
    match (from, to) {
        (VoiceProcessingState::Queued, VoiceProcessingState::Transcribing) => true,
        (VoiceProcessingState::Queued, VoiceProcessingState::Failed) => true,
        (VoiceProcessingState::Transcribing, VoiceProcessingState::Transcribed) => true,
        (VoiceProcessingState::Transcribing, VoiceProcessingState::Failed) => true,
        _ => false,
    }
}

/// The state whose code is `value`, if any.
pub open spec fn voice_state_of(value: Seq<char>) -> Option<VoiceProcessingState> {
    if value == "queued"@ {
        Some(VoiceProcessingState::Queued)
    } else if value == "transcribing"@ {
        Some(VoiceProcessingState::Transcribing)
    } else if value == "transcribed"@ {
        Some(VoiceProcessingState::Transcribed)
    } else if value == "failed"@ {
        Some(VoiceProcessingState::Failed)
    } else {
        None
    }
}

impl VoiceProcessingState {
    pub fn as_code(self) -> (r: &'static str)
        ensures
            r@ == voice_code(self),
    {
        match self {
            VoiceProcessingState::Queued => "queued",
            VoiceProcessingState::Transcribing => "transcribing",
            VoiceProcessingState::Transcribed => "transcribed",
            VoiceProcessingState::Failed => "failed",
        }
    }

    /// `true` for terminal states; no further transition is attempted.
    pub fn is_terminal(self) -> (r: bool)
        ensures
            r == voice_terminal(self),
    {
        match self {
            VoiceProcessingState::Transcribed | VoiceProcessingState::Failed => true,
            _ => false,
        }
    }

    /// The transition matrix.
    pub fn can_transition_to(self, next: Self) -> (r: bool)
        ensures
            r == voice_transition_allowed(self, next),
    {
        match (self, next) {
            (VoiceProcessingState::Queued, VoiceProcessingState::Transcribing) => true,
            (VoiceProcessingState::Queued, VoiceProcessingState::Failed) => true,
            (VoiceProcessingState::Transcribing, VoiceProcessingState::Transcribed) => true,
            (VoiceProcessingState::Transcribing, VoiceProcessingState::Failed) => true,
            _ => false,
        }
    }

    /// Reads a stored code; unknown codes fail with
    /// `VOICE_PROCESSING_STATE_UNKNOWN`.
    pub fn parse_code(value: &str) -> (r: AppResult<VoiceProcessingState>)
        ensures
            r is Ok <==> voice_state_of(value@) is Some,
            r matches Ok(s) ==> voice_state_of(value@) == Some(s),
            r matches Err(e) ==> e.is_error(ErrorKind::Validation, "VOICE_PROCESSING_STATE_UNKNOWN"@),
            r matches Err(e) ==> e.message_view() == "unrecognised voice processing state"@,
    {
        if str_equal(value, "queued") {
            Ok(VoiceProcessingState::Queued)
        } else if str_equal(value, "transcribing") {
            Ok(VoiceProcessingState::Transcribing)
        } else if str_equal(value, "transcribed") {
            Ok(VoiceProcessingState::Transcribed)
        } else if str_equal(value, "failed") {
            Ok(VoiceProcessingState::Failed)
        } else {
            Err(AppError::schema_validation(
                "VOICE_PROCESSING_STATE_UNKNOWN",
                String::from_str("unrecognised voice processing state"),
                ctx_one("state", ContextValue::Text(String::from_str(value))),
            ))
        }
    }
}

impl core::str::FromStr for VoiceProcessingState {
    type Err = AppError;

    fn from_str(value: &str) -> (r: Result<Self, Self::Err>)
        ensures
            r is Ok <==> voice_state_of(value@) is Some,
            r matches Ok(s) ==> voice_state_of(value@) == Some(s),
            r matches Err(e) ==> e.is_error(ErrorKind::Validation, "VOICE_PROCESSING_STATE_UNKNOWN"@),
            r matches Err(e) ==> e.message_view() == "unrecognised voice processing state"@,
    {
        VoiceProcessingState::parse_code(value)
    }
}

/// Terminal voice states are sticky: no transition leaves them.
pub proof fn voice_terminal_is_sticky(from: VoiceProcessingState, to: VoiceProcessingState)
    requires
        voice_terminal(from),
    ensures
        !voice_transition_allowed(from, to),
{
}

/// Reading a stored code back gives the state it was stored from.
pub proof fn voice_code_roundtrip(s: VoiceProcessingState)
    ensures
        voice_state_of(voice_code(s)) == Some(s),
{
    reveal_strlit("queued");
    reveal_strlit("transcribing");
    reveal_strlit("transcribed");
    reveal_strlit("failed");
    let c = voice_code(s);
    if s != VoiceProcessingState::Queued {
        assert(c != "queued"@) by { assert(c.len() != 6 || c[0] != 'q'); }
    }
    if s == VoiceProcessingState::Transcribed {
        assert(c != "transcribing"@) by { assert(c.len() != "transcribing"@.len()); }
    }
    if s == VoiceProcessingState::Failed {
        assert(c != "transcribing"@) by { assert(c.len() != "transcribing"@.len()); }
        assert(c != "transcribed"@) by { assert(c.len() != "transcribed"@.len()); }
    }
}

/// One voice-processing attempt.
#[derive(Debug)]
pub struct VoiceProcessingRecord {
    pub id: Option<i64>,
    /// Telegram idempotency key, stable across webhook retries.
    pub file_unique_id: String,
    pub chat_id: i64,
    pub telegram_user_id: i64,
    pub user_id: Option<i64>,
    pub state: VoiceProcessingState,
    pub attempt_count: u32,
    pub last_error_code: Option<String>,
    pub transcript_preview_hash: Option<String>,
    pub completed_at: Option<Timestamp>,
    pub created_at: Timestamp,
    pub updated_at: Timestamp,
}

impl VoiceProcessingRecord {
    /// The initial `queued` record of an attempt.
    pub fn queued(
        file_unique_id: String,
        chat_id: i64,
        telegram_user_id: i64,
        user_id: Option<i64>,
        now: Timestamp,
    ) -> (r: VoiceProcessingRecord)
        ensures
            r.id is None,
            r.file_unique_id@ == file_unique_id@,
            r.chat_id == chat_id,
            r.telegram_user_id == telegram_user_id,
            r.user_id == user_id,
            r.state == VoiceProcessingState::Queued,
            r.attempt_count == 0,
            r.last_error_code is None,
            r.transcript_preview_hash is None,
            r.completed_at is None,
            r.created_at == now,
            r.updated_at == now,
    {
        VoiceProcessingRecord {
            id: None,
            file_unique_id,
            chat_id,
            telegram_user_id,
            user_id,
            state: VoiceProcessingState::Queued,
            attempt_count: 0,
            last_error_code: None,
            transcript_preview_hash: None,
            completed_at: None,
            created_at: now,
            updated_at: now,
        }
    }
}

} // verus!
