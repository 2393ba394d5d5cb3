//! The requests the tracker makes of Telegram's Bot API.

use vstd::prelude::*;
use vstd::string::*;
use crate::text::{holds_str, holds_text};

verus! {

/// The address of the `sendMessage` method for a bot.
pub open spec fn send_message_url_text(bot_token: Seq<char>) -> Seq<char> {
    "https://api.telegram.org/bot"@ + bot_token + "/sendMessage"@
}

/// The error of a message that could not be sent.
pub open spec fn send_failed_text(detail: Seq<char>) -> Seq<char> {
    "Requête Telegram échouée: "@ + detail
}

/// The error of a message that could not be sent, without its reason.
pub open spec fn send_failed_short_text() -> Seq<char> {
    "Requête Telegram échouée"@
}

/// The error of an answer whose status reports failure, with the answer's body.
pub open spec fn api_refused_text(status: Seq<char>, body: Seq<char>) -> Seq<char> {
    "Erreur API Telegram "@ + status + ": "@ + body
}

/// The error of an answer whose status reports failure, without its details.
pub open spec fn api_refused_short_text() -> Seq<char> {
    "Erreur API Telegram"@
}

/// Whether `secret` shows in `text`: it is not empty and occurs in it. An empty secret
/// has nothing to show.
pub open spec fn shows_secret(text: Seq<char>, secret: Seq<char>) -> bool {
    secret.len() > 0 && holds_text(text, secret)
}

/// Of an error's full text and its short text, the first in which `secret` does not show,
/// or nothing where it shows in both.
pub open spec fn secret_free(full: Seq<char>, short: Seq<char>, secret: Seq<char>) -> Seq<char> {
    if !shows_secret(full, secret) {
        full
    } else if !shows_secret(short, secret) {
        short
    } else {
        Seq::empty()
    }
}

/// Nothing in which a non-empty secret could occur is left by `secret_free`.
pub proof fn lemma_secret_free(full: Seq<char>, short: Seq<char>, secret: Seq<char>)
    requires
        secret.len() > 0,
    ensures
        !holds_text(secret_free(full, short, secret), secret),
{
    if shows_secret(full, secret) && shows_secret(short, secret) {
        let e = Seq::<char>::empty();
        assert forall|i: int| 0 <= i && i + secret.len() <= e.len() implies #[trigger] e.subrange(i, i + secret.len()) != secret by {}
    }
}

fn without_secret(full: String, short: &str, secret: &str) -> (e: String)
    ensures
        e@ == secret_free(full@, short@, secret@),
{
    let empty_secret: bool = secret.unicode_len() == 0;
    if empty_secret || !holds_str(full.as_str(), secret) {
        full
    } else if !holds_str(short, secret) {
        String::from_str(short)
    } else {
        String::new()
    }
}

/// The address of the `sendMessage` method for the bot of `bot_token`.
pub fn send_message_url(bot_token: &str) -> (url: String)
    ensures
        url@ == send_message_url_text(bot_token@),
{
    let mut url = String::from_str("https://api.telegram.org/bot");
    url.append(bot_token);
    url.append("/sendMessage");
    url
}

/// The error of a message that could not be sent, with the reason, unless the bot's token
/// (where it is not empty) occurs in it: then without the reason, or empty where even that
/// holds the token. So the error never shows a non-empty token, and an empty token changes
/// nothing.
pub fn send_failed(detail: &str, bot_token: &str) -> (e: String)
    ensures
        e@ == secret_free(send_failed_text(detail@), send_failed_short_text(), bot_token@),
        bot_token@.len() > 0 ==> !holds_text(e@, bot_token@),
        bot_token@.len() == 0 ==> e@ == send_failed_text(detail@),
{
    let full = String::from_str("Requête Telegram échouée: ").concat(detail);
    let e = without_secret(full, "Requête Telegram échouée", bot_token);
    proof {
        if bot_token@.len() > 0 {
            lemma_secret_free(send_failed_text(detail@), send_failed_short_text(), bot_token@);
        }
    }
    e
}

/// The error of an answer whose status (such as `400 Bad Request`) reports failure, with
/// the answer's body, unless the bot's token (where it is not empty) occurs in it: then
/// without the details, or empty where even that holds the token. So the error never shows
/// a non-empty token, and an empty token changes nothing.
pub fn api_refused(status: &str, body: &str, bot_token: &str) -> (e: String)
    ensures
        e@ == secret_free(api_refused_text(status@, body@), api_refused_short_text(), bot_token@),
        bot_token@.len() > 0 ==> !holds_text(e@, bot_token@),
        bot_token@.len() == 0 ==> e@ == api_refused_text(status@, body@),
{
    let mut full = String::from_str("Erreur API Telegram ");
    full.append(status);
    full.append(": ");
    full.append(body);
    let e = without_secret(full, "Erreur API Telegram", bot_token);
    proof {
        if bot_token@.len() > 0 {
            lemma_secret_free(api_refused_text(status@, body@), api_refused_short_text(), bot_token@);
        }
    }
    e
}

} // verus!
