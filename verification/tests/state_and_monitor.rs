use github_tracker::models::{
    default_true, GitHubRelease, GitHubRepo, Notification, NotificationKind, RepoConfig,
    RepoState, Timestamp,
};
use github_tracker::monitor::{check_answers, plan_check, wants_release};
use github_tracker::state::{api_error_notification, AppState, MAX_NOTIFICATIONS};

fn now() -> Timestamp {
    Timestamp { secs: 1_700_000_000, nanos: 0 }
}

fn cfg(stars: bool, forks: bool, releases: bool) -> RepoConfig {
    RepoConfig {
        owner: "rust-lang".to_string(),
        repo: "rust".to_string(),
        notify_releases: releases,
        notify_stars: stars,
        notify_forks: forks,
    }
}

fn gh(stars: u64, forks: u64) -> GitHubRepo {
    GitHubRepo {
        full_name: "rust-lang/rust".to_string(),
        stargazers_count: stars,
        forks_count: forks,
        description: Some("Empowering everyone".to_string()),
        html_url: "https://github.com/rust-lang/rust".to_string(),
    }
}

fn release(tag: &str) -> Option<GitHubRelease> {
    Some(GitHubRelease {
        tag_name: tag.to_string(),
        name: None,
        html_url: format!("https://github.com/rust-lang/rust/releases/tag/{}", tag),
        published_at: None,
    })
}

fn state(name: &str, stars: u64, forks: u64, tag: Option<&str>) -> RepoState {
    RepoState {
        full_name: name.to_string(),
        stars,
        forks,
        latest_release: tag.map(|t| t.to_string()),
        description: None,
        html_url: format!("https://github.com/{}", name),
        last_checked: now(),
    }
}

fn note(i: u64) -> Notification {
    Notification {
        repo: "a/b".to_string(),
        message: format!("m{}", i),
        timestamp: Timestamp { secs: i as i64, nanos: 0 },
        kind: NotificationKind::Info,
    }
}

#[test]
fn full_name_joins_owner_and_repo() {
    assert_eq!(cfg(true, true, true).full_name(), "rust-lang/rust");
    assert!(default_true());
}

#[test]
fn kind_words() {
    assert_eq!(NotificationKind::NewRelease.to_string(), "Release");
    assert_eq!(NotificationKind::StarChange.to_string(), "Stars");
    assert_eq!(NotificationKind::ForkChange.to_string(), "Forks");
    assert_eq!(NotificationKind::Info.to_string(), "Info");
    assert_eq!(NotificationKind::Error.to_string(), "Erreur");
}

#[test]
fn notifications_keep_the_latest_hundred() {
    let mut s = AppState::new();
    for i in 0..150u64 {
        s.add_notification(note(i));
        assert!(s.notifications().len() <= MAX_NOTIFICATIONS);
        assert_eq!(s.notifications().last().unwrap().message, format!("m{}", i));
    }
    assert_eq!(s.notifications().len(), 100);
    assert_eq!(s.notifications()[0].message, "m50");
    assert_eq!(s.notifications()[99].message, "m149");
}

#[test]
fn update_repo_replaces_or_adds() {
    let mut s = AppState::new();
    s.update_repo(state("a/b", 1, 1, None));
    s.update_repo(state("c/d", 2, 2, None));
    s.update_repo(state("a/b", 5, 6, Some("v1")));
    assert_eq!(s.repos().len(), 2);
    assert_eq!(s.repos()[0].full_name, "a/b");
    assert_eq!(s.repos()[0].stars, 5);
    assert_eq!(s.repos()[1].full_name, "c/d");
    let found = s.repo_state(&"a/b".to_string()).unwrap();
    assert_eq!(found.forks, 6);
    assert_eq!(found.latest_release, Some("v1".to_string()));
    assert!(s.repo_state(&"x/y".to_string()).is_none());
    assert_eq!(s.repo_state(&"c/d".to_string()).unwrap().stars, 2);
}

#[test]
fn first_check_announces_nothing() {
    let out = plan_check(&cfg(true, true, true), &None, &gh(10, 2), &release("1.0"), now());
    assert!(out.alerts.is_empty());
    assert_eq!(out.state.full_name, "rust-lang/rust");
    assert_eq!(out.state.stars, 10);
    assert_eq!(out.state.forks, 2);
    assert_eq!(out.state.latest_release, Some("1.0".to_string()));
    assert_eq!(out.state.description, Some("Empowering everyone".to_string()));
    assert_eq!(out.state.html_url, "https://github.com/rust-lang/rust");
    assert_eq!(out.state.last_checked, now());
}

#[test]
fn star_fork_and_release_changes() {
    let prev = Some(state("rust-lang/rust", 10, 2, Some("0.9")));
    let out = plan_check(&cfg(true, true, true), &prev, &gh(12, 1), &release("1.0"), now());
    assert_eq!(out.alerts.len(), 3);
    let url = "https://github.com/rust-lang/rust";
    assert_eq!(
        out.alerts[0].telegram_text,
        format!("📈 <b>rust-lang/rust</b>\nStars : 10 → 12 (+2)\n<a href=\"{}\">{}</a>", url, url)
    );
    assert_eq!(out.alerts[0].notification.message, "Stars : 10 → 12 (+2)");
    assert_eq!(out.alerts[0].notification.kind, NotificationKind::StarChange);
    assert_eq!(out.alerts[0].notification.repo, "rust-lang/rust");
    assert_eq!(
        out.alerts[1].telegram_text,
        format!("🍴 <b>rust-lang/rust</b>\nForks : 2 → 1 (-1)\n<a href=\"{}\">{}</a>", url, url)
    );
    assert_eq!(out.alerts[1].notification.message, "Forks : 2 → 1 (-1)");
    assert_eq!(out.alerts[1].notification.kind, NotificationKind::ForkChange);
    let rel = "https://github.com/rust-lang/rust/releases/tag/1.0";
    assert_eq!(
        out.alerts[2].telegram_text,
        format!("🚀 <b>rust-lang/rust</b>\nNouvelle release : <b>1.0</b>\n<a href=\"{}\">{}</a>", rel, rel)
    );
    assert_eq!(out.alerts[2].notification.message, "Nouvelle release : 1.0");
    assert_eq!(out.alerts[2].notification.kind, NotificationKind::NewRelease);
    assert_eq!(out.alerts[2].notification.timestamp, now());
}

#[test]
fn star_loss_uses_the_falling_chart() {
    let prev = Some(state("rust-lang/rust", 10, 2, None));
    let out = plan_check(&cfg(true, false, false), &prev, &gh(7, 9), &None, now());
    assert_eq!(out.alerts.len(), 1);
    assert!(out.alerts[0].telegram_text.starts_with("📉 <b>rust-lang/rust</b>\nStars : 10 → 7 (-3)"));
}

#[test]
fn switched_off_changes_are_not_announced() {
    let prev = Some(state("rust-lang/rust", 10, 2, Some("0.9")));
    let out = plan_check(&cfg(false, false, false), &prev, &gh(12, 1), &release("1.0"), now());
    assert!(out.alerts.is_empty());
    assert_eq!(out.state.stars, 12);
}

#[test]
fn known_release_is_not_announced_again() {
    let prev = Some(state("rust-lang/rust", 10, 2, Some("1.0")));
    let out = plan_check(&cfg(true, true, true), &prev, &gh(10, 2), &release("1.0"), now());
    assert!(out.alerts.is_empty());
    let out = plan_check(&cfg(true, true, true), &prev, &gh(10, 2), &None, now());
    assert!(out.alerts.is_empty());
    assert_eq!(out.state.latest_release, None);
}

#[test]
fn release_after_none_is_new() {
    let prev = Some(state("rust-lang/rust", 10, 2, None));
    let out = plan_check(&cfg(true, true, true), &prev, &gh(10, 2), &release("2.0"), now());
    assert_eq!(out.alerts.len(), 1);
    assert_eq!(out.alerts[0].notification.kind, NotificationKind::NewRelease);
}

#[test]
fn repeated_check_is_silent() {
    let c = cfg(true, true, true);
    let first = plan_check(&c, &Some(state("rust-lang/rust", 1, 1, None)), &gh(40, 3), &release("3.1"), now());
    assert_eq!(first.alerts.len(), 3);
    let again = plan_check(&c, &Some(first.state), &gh(40, 3), &release("3.1"), now());
    assert!(again.alerts.is_empty());
}

#[test]
fn record_check_stores_state_then_notifications() {
    let mut s = AppState::new();
    s.add_notification(note(1));
    let prev = Some(state("rust-lang/rust", 10, 2, Some("0.9")));
    let out = plan_check(&cfg(true, true, true), &prev, &gh(12, 1), &release("1.0"), now());
    s.record_check(out);
    assert_eq!(s.repos().len(), 1);
    assert_eq!(s.repos()[0].stars, 12);
    assert_eq!(s.notifications().len(), 4);
    assert_eq!(s.notifications()[0].message, "m1");
    assert_eq!(s.notifications()[3].message, "Nouvelle release : 1.0");
}

#[test]
fn api_error_becomes_a_notification() {
    let n = api_error_notification(&"a/b".to_string(), "GitHub API a retourné 403 Forbidden", now());
    assert_eq!(n.repo, "a/b");
    assert_eq!(n.message, "Erreur API: GitHub API a retourné 403 Forbidden");
    assert_eq!(n.kind, NotificationKind::Error);
    assert_eq!(n.timestamp, now());
}

#[test]
fn record_check_keeps_the_latest_hundred_of_all() {
    let mut s = AppState::new();
    for i in 0..99u64 {
        s.add_notification(note(i));
    }
    let prev = Some(state("rust-lang/rust", 10, 2, Some("0.9")));
    let out = plan_check(&cfg(true, true, true), &prev, &gh(12, 1), &release("1.0"), now());
    s.record_check(out);
    assert_eq!(s.notifications().len(), 100);
    assert_eq!(s.notifications()[0].message, "m2");
    assert_eq!(s.notifications()[97].message, "Stars : 10 → 12 (+2)");
    assert_eq!(s.notifications()[98].message, "Forks : 2 → 1 (-1)");
    assert_eq!(s.notifications()[99].message, "Nouvelle release : 1.0");
}

#[test]
fn api_error_leaves_repositories_alone() {
    let mut s = AppState::new();
    s.update_repo(state("a/b", 1, 1, None));
    s.add_notification(api_error_notification(&"a/b".to_string(), "boom", now()));
    assert_eq!(s.repos().len(), 1);
    assert_eq!(s.repos()[0].stars, 1);
    assert_eq!(s.notifications()[0].message, "Erreur API: boom");
}

#[test]
fn count_changes_wrap_like_signed_numbers() {
    let prev = Some(state("rust-lang/rust", 0, 0, None));
    let big = 1u64 << 63;
    let out = plan_check(&cfg(true, false, false), &prev, &gh(big, 0), &None, now());
    assert_eq!(out.alerts.len(), 1);
    let diff = (big as i64).wrapping_sub(0);
    assert_eq!(
        out.alerts[0].notification.message,
        format!("Stars : 0 → {} ({:+})", big, diff)
    );
    assert!(out.alerts[0].telegram_text.starts_with("📉"));
    let prev = Some(state("rust-lang/rust", 0, 1, None));
    let out = plan_check(&cfg(false, true, false), &prev, &gh(0, big), &None, now());
    assert_eq!(out.alerts[0].notification.message, format!("Forks : 1 → {} (+{})", big, i64::MAX));
}

#[test]
fn check_repository_records_answers() {
    let mut s = AppState::new();
    let c = cfg(true, true, true);
    let first = s.check_repository(&c, Ok((gh(10, 2), release("1.0"))), now());
    assert!(first.is_empty());
    assert!(s.notifications().is_empty());
    let second = s.check_repository(&c, Ok((gh(12, 2), release("1.1"))), now());
    assert_eq!(second.len(), 2);
    assert!(second[0].starts_with("📈 <b>rust-lang/rust</b>\nStars : 10 → 12 (+2)"));
    assert!(second[1].starts_with("🚀 <b>rust-lang/rust</b>\nNouvelle release : <b>1.1</b>"));
    assert_eq!(s.notifications().len(), 2);
    let st = s.repo_state(&"rust-lang/rust".to_string()).unwrap();
    assert_eq!(st.stars, 12);
    assert_eq!(st.latest_release, Some("1.1".to_string()));
}

#[test]
fn check_repository_failure_skips_the_repository() {
    let mut s = AppState::new();
    let c = cfg(true, true, true);
    s.check_repository(&c, Ok((gh(10, 2), release("1.0"))), now());
    let msgs = s.check_repository(&c, Err("GitHub API a retourné 403 Forbidden".to_string()), now());
    assert!(msgs.is_empty());
    assert_eq!(s.repos().len(), 1);
    assert_eq!(s.repos()[0].stars, 10);
    assert_eq!(s.repos()[0].latest_release, Some("1.0".to_string()));
    assert_eq!(s.notifications().len(), 1);
    assert_eq!(s.notifications()[0].repo, "rust-lang/rust");
    assert_eq!(s.notifications()[0].message, "Erreur API: GitHub API a retourné 403 Forbidden");
    assert_eq!(s.notifications()[0].kind, NotificationKind::Error);
}

#[test]
fn answers_combine_into_one_outcome() {
    let ok_repo: Result<GitHubRepo, String> = Ok(gh(1, 2));
    let bad_repo: Result<GitHubRepo, String> = Err("r".to_string());
    assert!(wants_release(&ok_repo));
    assert!(!wants_release(&bad_repo));
    assert_eq!(check_answers(bad_repo, Ok(None)).unwrap_err(), "r");
    assert_eq!(check_answers(ok_repo.clone(), Err("l".to_string())).unwrap_err(), "l");
    let (r, rel) = check_answers(ok_repo, Ok(release("2.0"))).unwrap();
    assert_eq!(r.stargazers_count, 1);
    assert_eq!(rel.unwrap().tag_name, "2.0");
}
