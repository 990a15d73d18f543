use vstd::prelude::*;

use crate::message_details::MessageDetails;
use crate::toxic_service::ClassifierError;

verus! {

/// HTTP status of a successful deletion.
pub const STATUS_NO_CONTENT: u16 = 204;

/// HTTP status of a deletion the account may not make.
pub const STATUS_UNAUTHORIZED: u16 = 401;

/// HTTP status of a deletion whose message does not exist.
pub const STATUS_NOT_FOUND: u16 = 404;

/// Why a message could not be deleted.
#[derive(Debug, Clone, Copy, PartialEq, Eq, Structural)]
pub enum DeleteError {
    NotAuthorized,
    NotFound,
    /// No answer, or an answer of another status.
    Unknown,
}

/// Why the delete-then-notify action did not complete.
#[derive(Debug, Clone, Copy, PartialEq, Eq, Structural)]
pub enum ActionError {
    Delete(DeleteError),
    /// The message was deleted, but the notice could not be posted.
    Post,
}

/// Why the moderation of a message stopped short.
#[derive(Debug, Clone, Copy, PartialEq, Eq, Structural)]
pub enum ModerationError {
    Classifier(ClassifierError),
    Action(ActionError),
}

/// How the moderation of a message ended.
#[derive(Debug, Clone, Copy, PartialEq, Eq, Structural)]
pub enum ModerationOutcome {
    /// The author is exempt from moderation; the text was not scored.
    Exempt,
    /// The text was scored and is not toxic.
    Clean,
    /// The text was toxic: the message was deleted and the notice posted.
    Removed,
}

/// What the moderation of one message calls for next.
pub enum ModerationStep {
    /// Score the message's text and hand the verdict to `after_verdict`.
    Classify,
    /// Delete the message and hand the answer's status to `after_delete`.
    Delete,
    /// Post the notice into the chat and hand the result to `after_post`.
    PostNotice,
    /// Nothing more to do.
    Done(Result<ModerationOutcome, ModerationError>),
}

/// The deletion's result for the status of the provider's answer, if any.
pub open spec fn delete_result(status: Option<u16>) -> Result<(), DeleteError> {
    match status {
        Some(s) => if s == STATUS_NO_CONTENT {
            Ok(())
        } else if s == STATUS_UNAUTHORIZED {
            Err(DeleteError::NotAuthorized)
        } else if s == STATUS_NOT_FOUND {
            Err(DeleteError::NotFound)
        } else {
            Err(DeleteError::Unknown)
        },
        None => Err(DeleteError::Unknown),
    }
}

/// The first step for a message, given the author exempt from moderation.
pub open spec fn first_step(author_name: Seq<char>, exempt_author: Seq<char>) -> ModerationStep {
    if author_name == exempt_author {
        ModerationStep::Done(Ok(ModerationOutcome::Exempt))
    } else {
        ModerationStep::Classify
    }
}

/// The step that follows a score: deletion when the text is toxic, the end otherwise.
pub open spec fn step_after_verdict(verdict: Result<bool, ClassifierError>) -> ModerationStep {
    match verdict {
        Ok(true) => ModerationStep::Delete,
        Ok(false) => ModerationStep::Done(Ok(ModerationOutcome::Clean)),
        Err(e) => ModerationStep::Done(Err(ModerationError::Classifier(e))),
    }
}

/// The step after the deletion: the notice is posted only once the message
/// is gone.
pub open spec fn step_after_delete(status: Option<u16>) -> ModerationStep {
    match delete_result(status) {
        Ok(()) => ModerationStep::PostNotice,
        Err(e) => ModerationStep::Done(Err(ModerationError::Action(ActionError::Delete(e)))),
    }
}

/// The step after posting the notice.
pub open spec fn step_after_post(posted: bool) -> ModerationStep {
    if posted {
        ModerationStep::Done(Ok(ModerationOutcome::Removed))
    } else {
        ModerationStep::Done(Err(ModerationError::Action(ActionError::Post)))
    }
}

/// Reads the provider's answer to a deletion: `status` is its HTTP status,
/// `None` when no answer came.
pub fn delete_outcome(status: Option<u16>) -> (r: Result<(), DeleteError>)
    ensures
        r == delete_result(status),
{
    match status {
        Some(s) => {
            if s == STATUS_NO_CONTENT {
                Ok(())
            } else if s == STATUS_UNAUTHORIZED {
                Err(DeleteError::NotAuthorized)
            } else if s == STATUS_NOT_FOUND {
                Err(DeleteError::NotFound)
            } else {
                Err(DeleteError::Unknown)
            }
        },
        None => Err(DeleteError::Unknown),
    }
}

/// Starts the moderation of a message: a message by the exempt author is
/// left alone, any other is scored.
pub fn moderation_start(message: &MessageDetails, exempt_author: &String) -> (r: ModerationStep)
    ensures
        r == first_step(message.author_name@, exempt_author@),
{
    if message.author_name == *exempt_author {
        ModerationStep::Done(Ok(ModerationOutcome::Exempt))
    } else {
        ModerationStep::Classify
    }
}

/// The step after the verdict on the message's text.
pub fn after_verdict(verdict: Result<bool, ClassifierError>) -> (r: ModerationStep)
    ensures
        r == step_after_verdict(verdict),
{
    match verdict {
        Ok(true) => ModerationStep::Delete,
        Ok(false) => ModerationStep::Done(Ok(ModerationOutcome::Clean)),
        Err(e) => ModerationStep::Done(Err(ModerationError::Classifier(e))),
    }
}

/// The step after the deletion, given the status of the provider's answer.
pub fn after_delete(status: Option<u16>) -> (r: ModerationStep)
    ensures
        r == step_after_delete(status),
{
    match delete_outcome(status) {
        Ok(()) => ModerationStep::PostNotice,
        Err(e) => ModerationStep::Done(Err(ModerationError::Action(ActionError::Delete(e)))),
    }
}

/// The step after posting the notice, given whether the post succeeded.
pub fn after_post(posted: bool) -> (r: ModerationStep)
    ensures
        r == step_after_post(posted),
{
    if posted {
        ModerationStep::Done(Ok(ModerationOutcome::Removed))
    } else {
        ModerationStep::Done(Err(ModerationError::Action(ActionError::Post)))
    }
}

/// A notice is posted only after a deletion that succeeded: when the
/// deletion fails (not found, not authorized, or anything else), the
/// moderation ends there with that error and no post is attempted.
pub proof fn lemma_notice_only_after_deletion(status: Option<u16>)
    ensures
        step_after_delete(status) is PostNotice <==> status == Some(STATUS_NO_CONTENT),
        status == Some(STATUS_NOT_FOUND) ==> step_after_delete(status) == ModerationStep::Done(
            Err(ModerationError::Action(ActionError::Delete(DeleteError::NotFound))),
        ),
        delete_result(status) is Err ==> step_after_delete(status) is Done,
{
}

} // verus!
