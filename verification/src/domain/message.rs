use vstd::prelude::*;

use crate::domain::errors::{ctx_one, AppError, AppResult, ContextValue, ErrorKind};
use crate::limits::MAX_MESSAGE_LENGTH;
use crate::text::{push_signed, push_str, signed_decimal, string_of};
use crate::time::{Date, Timestamp};

verus! {

/// What an incoming Telegram message carries.
#[derive(Debug)]
pub enum MessageContent {
    Text { text: String },
    Voice { voice: VoiceAttachment },
    Command { text: String },
}

#[derive(Debug)]
pub struct VoiceAttachment {
    pub file_id: String,
    pub file_unique_id: String,
    pub duration_seconds: u32,
    pub mime_type: Option<String>,
    pub file_size_bytes: Option<u64>,
}

#[derive(Debug)]
pub struct IncomingMessage {
    pub message_id: i32,
    pub chat_id: i64,
    pub sender_id: i64,
    pub sender_name: String,
    pub sender_username: Option<String>,
    pub content: MessageContent,
    pub timestamp: Timestamp,
    pub source_message_key_override: Option<String>,
    /// The text came from a transcribed voice note.
    pub is_voice_origin: bool,
}

#[derive(Debug)]
pub struct ParsedTaskRequest {
    pub assignee_name: Option<String>,
    pub task_description: String,
    pub deadline: Option<Date>,
    pub deadline_raw: Option<String>,
    pub explicit_unassigned: bool,
    pub confidence_score: u8,
}

impl IncomingMessage {
    pub open spec fn spec_text_payload(&self) -> Option<Seq<char>> {
        match self.content {
            MessageContent::Text { text } => Some(text@),
            MessageContent::Command { text } => Some(text@),
            MessageContent::Voice { .. } => None,
        }
    }

    pub open spec fn spec_source_message_key(&self) -> Seq<char> {
        match self.source_message_key_override {
            Some(key) => key@,
            None => "telegram:"@ + signed_decimal(self.chat_id as int) + ":"@
                + signed_decimal(self.message_id as int),
        }
    }

    /// Idempotency key of the message: the explicit override when present,
    /// otherwise `telegram:<chat_id>:<message_id>`.
    pub fn source_message_key(&self) -> (r: String)
        ensures
            r@ == self.spec_source_message_key(),
    {
        if let Some(key) = &self.source_message_key_override {
            return key.clone();
        }
        let mut out: Vec<char> = Vec::new();
        push_str(&mut out, "telegram:");
        push_signed(&mut out, self.chat_id);
        push_str(&mut out, ":");
        push_signed(&mut out, self.message_id as i64);
        string_of(out.as_slice())
    }

    /// The text of a text or command message; `None` for voice.
    pub fn text_payload(&self) -> (r: Option<&str>)
        ensures
            r matches Some(t) ==> self.spec_text_payload() == Some(t@),
            r is None ==> self.spec_text_payload() is None,
    {
        match &self.content {
            MessageContent::Text { text } => Some(text.as_str()),
            MessageContent::Command { text } => Some(text.as_str()),
            MessageContent::Voice { .. } => None,
        }
    }

    /// Text payloads longer than `MAX_MESSAGE_LENGTH` characters fail with
    /// `MESSAGE_TOO_LONG`.
    pub fn validate_payload_length(&self) -> (r: AppResult<()>)
        ensures
            r is Ok <==> !(self.spec_text_payload() matches Some(t) && t.len() > MAX_MESSAGE_LENGTH),
            r matches Err(e) ==> e.is_error(ErrorKind::Validation, "MESSAGE_TOO_LONG"@),
            r matches Err(e) ==> e.message_view() == "Message exceeds the supported length"@,
    {
        if let Some(payload) = self.text_payload() {
            if payload.unicode_len() > MAX_MESSAGE_LENGTH {
                return Err(AppError::schema_validation(
                    "MESSAGE_TOO_LONG",
                    String::from_str("Message exceeds the supported length"),
                    ctx_one("limit", ContextValue::Int(MAX_MESSAGE_LENGTH as i64)),
                ));
            }
        }
        Ok(())
    }
}

} // verus!
