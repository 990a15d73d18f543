//! Moderation of a livestream's chat: normalizing provider messages, the
//! polling loop that pages through the chat, the toxicity verdict and the
//! delete-then-notify action, all as verified logic. The network calls are
//! made by the caller, which feeds their outcomes back in.

mod message_details;
mod moderation;
mod poll_loop;
mod stream_details;
mod token_store;
mod toxic_service;

pub use message_details::{
    has_text, message_error, normalizes_to, MessageDetails, MessageError, RawAuthor, RawMessage, RawSnippet,
};
pub use moderation::{
    after_delete, after_post, after_verdict, delete_outcome, delete_result, first_step, lemma_notice_only_after_deletion,
    moderation_start, step_after_delete, step_after_post, step_after_verdict, ActionError, DeleteError,
    ModerationError, ModerationOutcome, ModerationStep, STATUS_NOT_FOUND, STATUS_NO_CONTENT, STATUS_UNAUTHORIZED,
};
pub use poll_loop::{
    after_cycle, after_cycles, after_page, after_step, after_steps, delivered, lemma_after_steps_add,
    lemma_cursor_counts_deliveries, lemma_empty_page_pauses, lemma_fixed_interval_overrides,
    lemma_page_worked_off_in_order, lemma_steps_keep_cursor, new_messages, pause_for, poll_interval, step_matches,
    step_of, unseen, FetchError, PollLoop, PollState, PollStep, StepSpec, FALLBACK_POLL_INTERVAL_MS, MAX_PAGE_SIZE,
};
pub use stream_details::{
    broadcast_error, describes, RawBroadcast, RawBroadcastSnippet, StreamDetails, StreamError,
};
pub use token_store::{token_file_name, token_file_name_of, JsonTokenStore};
pub use toxic_service::{
    decimal, percent_encoded, scoring_uri, toxicity_verdict, verdict_from_response, verdict_of, ClassifierError,
    ToxicService, TOXIC_KEY,
};
