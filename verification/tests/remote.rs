use github_tracker::github::{
    auth_header, bad_status, is_success, latest_release_url, read_release_status, repo_url,
    request_failed, unreadable_answer, ReleaseAnswer,
};
use github_tracker::telegram::{api_refused, send_failed, send_message_url};

#[test]
fn github_addresses() {
    assert_eq!(repo_url("rust-lang", "rust"), "https://api.github.com/repos/rust-lang/rust");
    assert_eq!(
        latest_release_url("rust-lang", "rust"),
        "https://api.github.com/repos/rust-lang/rust/releases/latest"
    );
}

#[test]
fn github_auth_header() {
    assert_eq!(auth_header(&Some("abc".to_string())), Some("Bearer abc".to_string()));
    assert_eq!(auth_header(&None), None);
}

#[test]
fn status_reading() {
    assert!(is_success(200));
    assert!(is_success(299));
    assert!(!is_success(199));
    assert!(!is_success(300));
    assert_eq!(read_release_status(404), ReleaseAnswer::NoRelease);
    assert_eq!(read_release_status(200), ReleaseAnswer::Release);
    assert_eq!(read_release_status(403), ReleaseAnswer::Failed);
    assert_eq!(read_release_status(500), ReleaseAnswer::Failed);
}

#[test]
fn github_errors() {
    assert_eq!(request_failed("timeout"), "Requête échouée: timeout");
    assert_eq!(bad_status("403 Forbidden"), "GitHub API a retourné 403 Forbidden");
    assert_eq!(unreadable_answer("eof"), "Échec de parsing de la réponse: eof");
}

#[test]
fn telegram_requests() {
    assert_eq!(send_message_url("123:ABC"), "https://api.telegram.org/bot123:ABC/sendMessage");
    assert_eq!(send_failed("dns", "123:ABC"), "Requête Telegram échouée: dns");
    assert_eq!(
        api_refused("400 Bad Request", "{\"ok\":false}", "123:ABC"),
        "Erreur API Telegram 400 Bad Request: {\"ok\":false}"
    );
}

#[test]
fn telegram_errors_never_show_the_token() {
    let token = "123:ABC";
    let e = send_failed("error sending request for url (https://api.telegram.org/bot123:ABC/sendMessage)", token);
    assert_eq!(e, "Requête Telegram échouée");
    assert!(!e.contains(token));
    let e = api_refused("401 Unauthorized", "bad token 123:ABC", token);
    assert_eq!(e, "Erreur API Telegram");
    assert_eq!(send_failed("x", "Requête"), "");
    assert_eq!(send_failed("x: y", ": x"), "Requête Telegram échouée");
}

#[test]
fn telegram_errors_with_an_empty_token_are_whole() {
    assert_eq!(send_failed("dns", ""), "Requête Telegram échouée: dns");
    assert_eq!(
        api_refused("404 Not Found", "{\"ok\":false}", ""),
        "Erreur API Telegram 404 Not Found: {\"ok\":false}"
    );
}
