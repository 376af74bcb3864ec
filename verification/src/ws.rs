//! What the websocket client does with each message it receives.
use vstd::prelude::*;

use crate::ws_messages::{ErrorData, MessageValues, ParsedMessage};

verus! {

/// A frame read from the websocket.
pub enum WsEvent {
    Text(String),
    Close,
    Other,
}

/// What the reader loop does with a frame.
pub enum WsAction {
    /// Handle the text in a task of its own, and read on.
    HandleText(String),
    /// Close the connection, waiting at most two seconds, and stop reading.
    CloseAndStop,
    /// Read on.
    Ignore,
}

/// The reader loop's step for a frame: text is handled, a close frame ends
/// the connection, anything else is skipped.
pub fn on_event(event: WsEvent) -> (r: WsAction)
    ensures
        match event {
            WsEvent::Text(t) => r matches WsAction::HandleText(t2) && t2@ == t@,
            WsEvent::Close => r is CloseAndStop,
            WsEvent::Other => r is Ignore,
        },
{
    match event {
        WsEvent::Text(text) => WsAction::HandleText(text),
        WsEvent::Close => WsAction::CloseAndStop,
        WsEvent::Other => WsAction::Ignore,
    }
}

/// What handling a text message does.
pub enum TextAction {
    /// Log the server's error.
    LogError(ErrorData),
    /// Reply with the photo, after taking a new one where `take_photo`
    /// holds; the reply carries `unique` and the cache flag.
    SendPhoto { take_photo: bool, unique: String, cache: Option<bool> },
    /// Nothing: the text was no message the application knows.
    Nothing,
}

/// The step for a text message, given what it means: a photo request is
/// answered with the current photo, a forced update with a new one, both
/// marked for caching; a server error is logged.
pub fn on_text(message: Option<MessageValues>) -> (r: TextAction)
    ensures
        match message {
            None => r is Nothing,
            Some(MessageValues::Invalid(e)) => r == TextAction::LogError(e),
            Some(MessageValues::Valid(request, unique)) => r matches TextAction::SendPhoto {
                take_photo,
                unique: u,
                cache,
            } && take_photo == (request == ParsedMessage::ForceUpdate) && u@ == unique@ && cache
                == Some(true),
        },
{
    match message {
        None => TextAction::Nothing,
        Some(MessageValues::Invalid(error)) => TextAction::LogError(error),
        Some(MessageValues::Valid(request, unique)) => {
            let take_photo = match request {
                ParsedMessage::ForceUpdate => true,
                ParsedMessage::Photo => false,
            };
            TextAction::SendPhoto { take_photo, unique, cache: Some(true) }
        },
    }
}

} // verus!
