use vstd::prelude::*;

verus! {

/// Author part of a chat message, as the chat provider sends it.
pub struct RawAuthor {
    pub channel_id: Option<String>,
    pub display_name: Option<String>,
}

/// Content part of a chat message, as the chat provider sends it.
pub struct RawSnippet {
    pub display_message: Option<String>,
    /// Publication time, in milliseconds since the Unix epoch.
    pub published_at: Option<i64>,
}

/// A chat message as the provider sends it: any part may be missing.
pub struct RawMessage {
    pub id: Option<String>,
    pub author_details: Option<RawAuthor>,
    pub snippet: Option<RawSnippet>,
}

/// A validated chat message: every text field is present and non-empty.
pub struct MessageDetails {
    pub id: String,
    pub author_id: String,
    pub author_name: String,
    pub contents: String,
    /// Publication time, in milliseconds since the Unix epoch.
    pub time_sent: i64,
}

/// Why a raw message could not be normalized: the part or field that is
/// absent (or, for a text field, empty).
#[derive(Debug, Clone, Copy, PartialEq, Eq, Structural)]
pub enum MessageError {
    MissingAuthor,
    MissingSnippet,
    MissingId,
    MissingAuthorId,
    MissingAuthorName,
    MissingContents,
    MissingTimeSent,
}

/// A text field that is there and holds at least one character.
pub open spec fn has_text(s: Option<String>) -> bool {
    s is Some && s->Some_0@.len() > 0
}

/// The first defect of a raw message, in the order author, snippet, id,
/// author id, author name, contents, time; `None` when it has none.
pub open spec fn message_error(m: RawMessage) -> Option<MessageError> {
    if m.author_details is None {
        Some(MessageError::MissingAuthor)
    } else if m.snippet is None {
        Some(MessageError::MissingSnippet)
    } else if !has_text(m.id) {
        Some(MessageError::MissingId)
    } else if !has_text(m.author_details->Some_0.channel_id) {
        Some(MessageError::MissingAuthorId)
    } else if !has_text(m.author_details->Some_0.display_name) {
        Some(MessageError::MissingAuthorName)
    } else if !has_text(m.snippet->Some_0.display_message) {
        Some(MessageError::MissingContents)
    } else if m.snippet->Some_0.published_at is None {
        Some(MessageError::MissingTimeSent)
    } else {
        None
    }
}

/// `d` carries exactly the fields of the raw message `m`.
pub open spec fn normalizes_to(m: RawMessage, d: MessageDetails) -> bool {
    &&& d.id@ == m.id->Some_0@
    &&& d.author_id@ == m.author_details->Some_0.channel_id->Some_0@
    &&& d.author_name@ == m.author_details->Some_0.display_name->Some_0@
    &&& d.contents@ == m.snippet->Some_0.display_message->Some_0@
    &&& d.time_sent == m.snippet->Some_0.published_at->Some_0
}

/// Takes a text field that must be present and non-empty.
fn required_text(s: Option<String>, e: MessageError) -> (r: Result<String, MessageError>)
    ensures
        has_text(s) ==> r is Ok && r->Ok_0@ == s->Some_0@,
        !has_text(s) ==> r == Err::<String, MessageError>(e),
{
    match s {
        Some(t) => {
            if t.as_str().is_empty() {
                Err(e)
            } else {
                Ok(t)
            }
        },
        None => Err(e),
    }
}

impl MessageDetails {
    /// Every text field is non-empty.
    pub open spec fn wf(&self) -> bool {
        &&& self.id@.len() > 0
        &&& self.author_id@.len() > 0
        &&& self.author_name@.len() > 0
        &&& self.contents@.len() > 0
    }

    /// Validates a raw message: fails on its first missing part or field.
    pub fn from_message(message: RawMessage) -> (r: Result<MessageDetails, MessageError>)
        ensures
            match r {
                Ok(d) => message_error(message) is None && normalizes_to(message, d) && d.wf(),
                Err(e) => message_error(message) == Some(e),
            },
    {
        let ghost m = message;
        let author = match message.author_details {
            Some(a) => a,
            None => return Err(MessageError::MissingAuthor),
        };
        let snippet = match message.snippet {
            Some(s) => s,
            None => return Err(MessageError::MissingSnippet),
        };
        let id = required_text(message.id, MessageError::MissingId)?;
        let author_id = required_text(author.channel_id, MessageError::MissingAuthorId)?;
        let author_name = required_text(author.display_name, MessageError::MissingAuthorName)?;
        let contents = required_text(snippet.display_message, MessageError::MissingContents)?;
        let time_sent = match snippet.published_at {
            Some(t) => t,
            None => return Err(MessageError::MissingTimeSent),
        };
        Ok(MessageDetails { id, author_id, author_name, contents, time_sent })
    }
}

} // verus!
