use vstd::prelude::*;
use vstd::string::*;

use crate::codec::CallbackData;

verus! {

/// Builds the bot-API endpoint for one method call.
pub fn create_tg_url(bot_token: &str, method: &str) -> (r: String)
    ensures
        r@ == "https://api.telegram.org/bot"@ + bot_token@ + "/"@ + method@,
{
    let mut r = String::from_str("https://api.telegram.org/bot");
    r.append(bot_token);
    r.append("/");
    r.append(method);
    r
}

/// What kind of inbound update was received, as decided by the dispatcher.
#[derive(Debug)]
pub enum UpdateType {
    Start,
    Help,
    JoinExisting,
    Create,
    Callback(i64, i32, CallbackData, String),
    NewRoom,
    InsertId,
    WaitingForOther,
    WaitingForResults,
    UnknownCommand,
    Other,
    Error,
}

/// Which rating axis a callback button belongs to, or neither.
#[derive(Clone, Copy, PartialEq, Eq, Structural, Debug)]
pub enum CallbackMessageType {
    Importance,
    Evaluation,
    Error,
}

} // verus!
