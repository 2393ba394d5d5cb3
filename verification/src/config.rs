//! The tracker's settings and the text of its repository file.

use vstd::prelude::*;
use vstd::string::*;
use crate::text::{all_digits, digits_value, parse_unsigned, unsigned_value};

verus! {

/// The settings the tracker runs with.
#[derive(Debug, Clone)]
pub struct AppConfig {
    pub telegram_bot_token: String,
    pub telegram_chat_id: String,
    pub check_interval_secs: u64,
    pub web_host: String,
    pub web_port: u16,
    pub github_token: Option<String>,
}

/// The text of an optional setting, or `default` where it is unset.
pub open spec fn setting_or(value: Option<String>, default: Seq<char>) -> Seq<char> {
    match value {
        Some(v) => v@,
        None => default,
    }
}

/// The check interval's text where none is set.
pub open spec fn default_interval_text() -> Seq<char> {
    "300"@
}

/// The listening address where none is set.
pub open spec fn default_host_text() -> Seq<char> {
    "0.0.0.0"@
}

/// The listening port's text where none is set.
pub open spec fn default_port_text() -> Seq<char> {
    "8080"@
}

/// The defaults of the check interval and of the port are accepted: 300 seconds and port
/// 8080. So settings that leave them unset are refused only for an unset token or chat id.
pub proof fn lemma_defaults_accepted()
    ensures
        unsigned_value(default_interval_text(), u64::MAX as nat) == Some(300nat),
        unsigned_value(default_port_text(), u16::MAX as nat) == Some(8080nat),
{
    reveal_strlit("300");
    reveal_strlit("8080");
    let i = default_interval_text();
    let p = default_port_text();
    assert(i == seq!['3', '0', '0']);
    assert(p == seq!['8', '0', '8', '0']);
    let i1 = i.drop_last().drop_last();
    let i2 = i.drop_last();
    assert(i1 =~= seq!['3']);
    assert(i2 =~= seq!['3', '0']);
    assert(digits_value(Seq::<char>::empty()) == 0);
    assert(i1.drop_last() =~= Seq::<char>::empty());
    assert(i2.drop_last() =~= i1);
    assert(digits_value(i1) == 3);
    assert(digits_value(i2) == 30);
    assert(digits_value(i) == 300);
    assert(all_digits(i));
    let p1 = p.drop_last().drop_last().drop_last();
    let p2 = p.drop_last().drop_last();
    let p3 = p.drop_last();
    assert(p1 =~= seq!['8']);
    assert(p2 =~= seq!['8', '0']);
    assert(p3 =~= seq!['8', '0', '8']);
    assert(p1.drop_last() =~= Seq::<char>::empty());
    assert(p2.drop_last() =~= p1);
    assert(p3.drop_last() =~= p2);
    assert(digits_value(p1) == 8);
    assert(digits_value(p2) == 80);
    assert(digits_value(p3) == 808);
    assert(digits_value(p) == 8080);
    assert(all_digits(p));
}

/// The refusal when the bot token is unset.
pub open spec fn missing_bot_token_text() -> Seq<char> {
    "TELEGRAM_BOT_TOKEN non défini dans .env"@
}

/// The refusal when the chat id is unset.
pub open spec fn missing_chat_id_text() -> Seq<char> {
    "TELEGRAM_CHAT_ID non défini dans .env"@
}

/// The refusal when the check interval is no number.
pub open spec fn bad_interval_text() -> Seq<char> {
    "CHECK_INTERVAL_SECONDS doit être un nombre"@
}

/// The refusal when the port is no port number.
pub open spec fn bad_port_text() -> Seq<char> {
    "WEB_PORT doit être un numéro de port valide"@
}

/// The first line and the blank line that open a repository file the tracker writes.
pub open spec fn repos_file_header() -> Seq<char> {
    "# Géré automatiquement par l'interface web GitHub Tracker\n\n"@
}

impl AppConfig {
    /// Builds the settings from the values of `TELEGRAM_BOT_TOKEN`, `TELEGRAM_CHAT_ID`,
    /// `CHECK_INTERVAL_SECONDS`, `WEB_HOST`, `WEB_PORT` and `GITHUB_TOKEN` (`None` where a
    /// variable is unset). The interval defaults to `300`, the host to `0.0.0.0`, the port to
    /// `8080`; the first of the four refusals that applies, in that order, is returned.
    pub fn from_vars(
        telegram_bot_token: Option<String>,
        telegram_chat_id: Option<String>,
        check_interval: Option<String>,
        web_host: Option<String>,
        web_port: Option<String>,
        github_token: Option<String>,
    ) -> (r: Result<AppConfig, String>)
        ensures
            telegram_bot_token is None ==> (r matches Err(e) && e@ == missing_bot_token_text()),
            telegram_bot_token is Some && telegram_chat_id is None ==> (r matches Err(e) && e@
                == missing_chat_id_text()),
            telegram_bot_token is Some && telegram_chat_id is Some && unsigned_value(
                setting_or(check_interval, default_interval_text()),
                u64::MAX as nat,
            ) is None ==> (r matches Err(e) && e@ == bad_interval_text()),
            telegram_bot_token is Some && telegram_chat_id is Some && unsigned_value(
                setting_or(check_interval, default_interval_text()),
                u64::MAX as nat,
            ) is Some && unsigned_value(setting_or(web_port, default_port_text()), u16::MAX as nat)
                is None ==> (r matches Err(e) && e@ == bad_port_text()),
            telegram_bot_token is Some && telegram_chat_id is Some && unsigned_value(
                setting_or(check_interval, default_interval_text()),
                u64::MAX as nat,
            ) is Some && unsigned_value(setting_or(web_port, default_port_text()), u16::MAX as nat)
                is Some ==> r is Ok,
            r matches Ok(c) ==> {
                &&& telegram_bot_token == Some(c.telegram_bot_token)
                &&& telegram_chat_id == Some(c.telegram_chat_id)
                &&& unsigned_value(setting_or(check_interval, default_interval_text()), u64::MAX as nat)
                    == Some(c.check_interval_secs as nat)
                &&& c.web_host@ == setting_or(web_host, default_host_text())
                &&& unsigned_value(setting_or(web_port, default_port_text()), u16::MAX as nat)
                    == Some(c.web_port as nat)
                &&& c.github_token == github_token
            },
    {
        let telegram_bot_token = match telegram_bot_token {
            Some(t) => t,
            None => {
                return Err(String::from_str("TELEGRAM_BOT_TOKEN non défini dans .env"));
            },
        };
        let telegram_chat_id = match telegram_chat_id {
            Some(t) => t,
            None => {
                return Err(String::from_str("TELEGRAM_CHAT_ID non défini dans .env"));
            },
        };
        let interval_text = match check_interval {
            Some(t) => t,
            None => String::from_str("300"),
        };
        let check_interval_secs: u64 = match parse_unsigned(interval_text.as_str(), u64::MAX) {
            Some(v) => v,
            None => {
                return Err(String::from_str("CHECK_INTERVAL_SECONDS doit être un nombre"));
            },
        };
        let web_host = match web_host {
            Some(h) => h,
            None => String::from_str("0.0.0.0"),
        };
        let port_text = match web_port {
            Some(t) => t,
            None => String::from_str("8080"),
        };
        let web_port: u16 = match parse_unsigned(port_text.as_str(), 65535) {
            Some(v) => v as u16,
            None => {
                return Err(String::from_str("WEB_PORT doit être un numéro de port valide"));
            },
        };
        Ok(AppConfig {
            telegram_bot_token,
            telegram_chat_id,
            check_interval_secs,
            web_host,
            web_port,
            github_token,
        })
    }
}

/// The text of the repository file that holds `body`, the serialised list of repositories:
/// a line saying that the tracker manages the file, a blank line, then `body`.
pub fn repos_file_text(body: &str) -> (text: String)
    ensures
        text@ == repos_file_header() + body@,
{
    let header = String::from_str("# Géré automatiquement par l'interface web GitHub Tracker\n\n");
    header.concat(body)
}

} // verus!
