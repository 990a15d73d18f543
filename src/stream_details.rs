use vstd::prelude::*;

verus! {

/// Descriptive part of a broadcast, as the provider sends it.
pub struct RawBroadcastSnippet {
    pub live_chat_id: Option<String>,
    pub title: Option<String>,
    pub description: Option<String>,
}

/// A broadcast as the provider sends it: any part may be missing.
pub struct RawBroadcast {
    pub id: Option<String>,
    pub snippet: Option<RawBroadcastSnippet>,
}

/// The broadcast whose chat is moderated.
pub struct StreamDetails {
    pub id: String,
    pub title: String,
    pub description: String,
    pub live_chat_id: String,
}

/// Why no stream could be selected.
#[derive(Debug, Clone, Copy, PartialEq, Eq, Structural)]
pub enum StreamError {
    /// The broadcast list response had no item list at all.
    MissingItems,
    /// The account owns no broadcast.
    NoStreams,
    MissingId,
    MissingSnippet,
    MissingLiveChatId,
    MissingTitle,
    MissingDescription,
}

/// The first absent field of a raw broadcast, in the order id, snippet,
/// live chat id, title, description; `None` when all are there.
pub open spec fn broadcast_error(b: RawBroadcast) -> Option<StreamError> {
    if b.id is None {
        Some(StreamError::MissingId)
    } else if b.snippet is None {
        Some(StreamError::MissingSnippet)
    } else if b.snippet->Some_0.live_chat_id is None {
        Some(StreamError::MissingLiveChatId)
    } else if b.snippet->Some_0.title is None {
        Some(StreamError::MissingTitle)
    } else if b.snippet->Some_0.description is None {
        Some(StreamError::MissingDescription)
    } else {
        None
    }
}

/// `s` carries exactly the fields of the raw broadcast `b`.
pub open spec fn describes(b: RawBroadcast, s: StreamDetails) -> bool {
    &&& s.id@ == b.id->Some_0@
    &&& s.live_chat_id@ == b.snippet->Some_0.live_chat_id->Some_0@
    &&& s.title@ == b.snippet->Some_0.title->Some_0@
    &&& s.description@ == b.snippet->Some_0.description->Some_0@
}

impl StreamDetails {
    /// Reads a raw broadcast: fails on its first missing field.
    pub fn from_broadcast(broadcast: RawBroadcast) -> (r: Result<StreamDetails, StreamError>)
        ensures
            match r {
                Ok(s) => broadcast_error(broadcast) is None && describes(broadcast, s),
                Err(e) => broadcast_error(broadcast) == Some(e),
            },
    {
        let id = match broadcast.id {
            Some(id) => id,
            None => return Err(StreamError::MissingId),
        };
        let snippet = match broadcast.snippet {
            Some(s) => s,
            None => return Err(StreamError::MissingSnippet),
        };
        let live_chat_id = match snippet.live_chat_id {
            Some(c) => c,
            None => return Err(StreamError::MissingLiveChatId),
        };
        let title = match snippet.title {
            Some(t) => t,
            None => return Err(StreamError::MissingTitle),
        };
        let description = match snippet.description {
            Some(d) => d,
            None => return Err(StreamError::MissingDescription),
        };
        Ok(StreamDetails { id, title, description, live_chat_id })
    }

    /// Picks the stream to moderate from the account's broadcast list: the
    /// first broadcast. Fails when the list is absent or empty, or when the
    /// first broadcast lacks a field.
    pub fn select(items: Option<Vec<RawBroadcast>>) -> (r: Result<StreamDetails, StreamError>)
        ensures
            items is None ==> r == Err::<StreamDetails, StreamError>(StreamError::MissingItems),
            items is Some && items->Some_0@.len() == 0 ==> r == Err::<StreamDetails, StreamError>(
                StreamError::NoStreams,
            ),
            items is Some && items->Some_0@.len() > 0 ==> {
                let first = items->Some_0@[0];
                match r {
                    Ok(s) => broadcast_error(first) is None && describes(first, s),
                    Err(e) => broadcast_error(first) == Some(e),
                }
            },
    {
        match items {
            None => Err(StreamError::MissingItems),
            Some(mut list) => {
                if list.len() == 0 {
                    Err(StreamError::NoStreams)
                } else {
                    let first = list.remove(0);
                    StreamDetails::from_broadcast(first)
                }
            },
        }
    }
}

} // verus!
