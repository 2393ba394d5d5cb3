//! What one check of a repository decides: which changes are announced, with which text,
//! and what is remembered of the repository afterwards.

use vstd::prelude::*;
use vstd::string::*;
use crate::models::{
    full_name_text, GitHubRelease, GitHubRepo, Notification, NotificationKind, NotificationView, RepoConfig,
    RepoState, Timestamp, copy_opt_string,
};
use crate::text::{decimal_string, decimal_text, signed_string, signed_text};

verus! {

/// One announced change: the message sent to the chat and the notification kept for the
/// dashboard.
#[derive(Debug, Clone)]
pub struct Alert {
    pub telegram_text: String,
    pub notification: Notification,
}

/// An alert with its texts taken as character sequences.
pub ghost struct AlertView {
    pub telegram_text: Seq<char>,
    pub repo: Seq<char>,
    pub message: Seq<char>,
    pub timestamp: Timestamp,
    pub kind: NotificationKind,
}

impl View for Alert {
    type V = AlertView;

    open spec fn view(&self) -> AlertView {
        AlertView {
            telegram_text: self.telegram_text@,
            repo: self.notification.repo@,
            message: self.notification.message@,
            timestamp: self.notification.timestamp,
            kind: self.notification.kind,
        }
    }
}

/// The notification that an alert keeps for the dashboard.
pub open spec fn alert_notification(a: AlertView) -> NotificationView {
    NotificationView { repo: a.repo, message: a.message, timestamp: a.timestamp, kind: a.kind }
}

/// What one check of a repository yields: the changes to announce, in order, and the state
/// to remember.
#[derive(Debug, Clone)]
pub struct CheckOutcome {
    pub alerts: Vec<Alert>,
    pub state: RepoState,
}

/// The change of a count as the tracker computes it: both counts taken as signed 64-bit
/// numbers, the difference wrapping around within that range.
pub open spec fn count_change(new: u64, old: u64) -> int {
    ((new as i64).wrapping_sub(old as i64)) as int
}

/// `old → new (±change)`, the part of a count's message that says what changed.
pub open spec fn change_text(old: u64, new: u64) -> Seq<char> {
    decimal_text(old as nat) + " → "@ + decimal_text(new as nat) + " ("@ + signed_text(
        count_change(new, old),
    ) + ")"@
}

/// The link to `url`, showing `url`.
pub open spec fn link_text(url: Seq<char>) -> Seq<char> {
    "<a href=\""@ + url + "\">"@ + url + "</a>"@
}

/// The dashboard message of a change of stars.
pub open spec fn stars_message(old: u64, new: u64) -> Seq<char> {
    "Stars : "@ + change_text(old, new)
}

/// The chat message of a change of stars.
pub open spec fn stars_telegram(name: Seq<char>, old: u64, new: u64, url: Seq<char>) -> Seq<char> {
    (if count_change(new, old) > 0 {
        "📈"@
    } else {
        "📉"@
    }) + " <b>"@ + name + "</b>\n"@ + stars_message(old, new) + "\n"@ + link_text(url)
}

/// The dashboard message of a change of forks.
pub open spec fn forks_message(old: u64, new: u64) -> Seq<char> {
    "Forks : "@ + change_text(old, new)
}

/// The chat message of a change of forks.
pub open spec fn forks_telegram(name: Seq<char>, old: u64, new: u64, url: Seq<char>) -> Seq<char> {
    "🍴 <b>"@ + name + "</b>\n"@ + forks_message(old, new) + "\n"@ + link_text(url)
}

/// The dashboard message of a new release.
pub open spec fn release_message(tag: Seq<char>) -> Seq<char> {
    "Nouvelle release : "@ + tag
}

/// The chat message of a new release.
pub open spec fn release_telegram(name: Seq<char>, tag: Seq<char>, url: Seq<char>) -> Seq<char> {
    "🚀 <b>"@ + name + "</b>\nNouvelle release : <b>"@ + tag + "</b>\n"@ + link_text(url)
}

/// Whether a check announces a change of stars.
pub open spec fn stars_changed(cfg: RepoConfig, prev: RepoState, repo: GitHubRepo) -> bool {
    cfg.notify_stars && repo.stargazers_count != prev.stars
}

/// Whether a check announces a change of forks.
pub open spec fn forks_changed(cfg: RepoConfig, prev: RepoState, repo: GitHubRepo) -> bool {
    cfg.notify_forks && repo.forks_count != prev.forks
}

/// Whether a check announces a new release: there is a latest release, and its tag is not
/// the one remembered.
pub open spec fn release_is_new(
    cfg: RepoConfig,
    prev: RepoState,
    release: Option<GitHubRelease>,
) -> bool {
    cfg.notify_releases && release is Some && match prev.latest_release {
        Some(old) => old@ != release->0.tag_name@,
        None => true,
    }
}

/// The alerts of a check, in order: stars, forks, release. None on the first check of a
/// repository, when nothing was remembered of it.
pub open spec fn planned_alerts(
    cfg: RepoConfig,
    prev: Option<RepoState>,
    repo: GitHubRepo,
    release: Option<GitHubRelease>,
    now: Timestamp,
) -> Seq<AlertView> {
    match prev {
        None => Seq::empty(),
        Some(p) => {
            let name = full_name_text(cfg.owner@, cfg.repo@);
            let stars = if stars_changed(cfg, p, repo) {
                seq![
                    AlertView {
                        telegram_text: stars_telegram(name, p.stars, repo.stargazers_count, repo.html_url@),
                        repo: name,
                        message: stars_message(p.stars, repo.stargazers_count),
                        timestamp: now,
                        kind: NotificationKind::StarChange,
                    },
                ]
            } else {
                Seq::empty()
            };
            let forks = if forks_changed(cfg, p, repo) {
                seq![
                    AlertView {
                        telegram_text: forks_telegram(name, p.forks, repo.forks_count, repo.html_url@),
                        repo: name,
                        message: forks_message(p.forks, repo.forks_count),
                        timestamp: now,
                        kind: NotificationKind::ForkChange,
                    },
                ]
            } else {
                Seq::empty()
            };
            let releases = if release_is_new(cfg, p, release) {
                let r = release->0;
                seq![
                    AlertView {
                        telegram_text: release_telegram(name, r.tag_name@, r.html_url@),
                        repo: name,
                        message: release_message(r.tag_name@),
                        timestamp: now,
                        kind: NotificationKind::NewRelease,
                    },
                ]
            } else {
                Seq::empty()
            };
            stars + forks + releases
        },
    }
}

fn change_string(old: u64, new: u64) -> (s: String)
    ensures
        s@ == change_text(old, new),
{
    let diff: i64 = (new as i64).wrapping_sub(old as i64);
    let mut s = decimal_string(old);
    s.append(" → ");
    s.append(decimal_string(new).as_str());
    s.append(" (");
    s.append(signed_string(diff).as_str());
    s.append(")");
    s
}

fn link_string(url: &String) -> (s: String)
    ensures
        s@ == link_text(url@),
{
    let mut s = String::from_str("<a href=\"");
    s.append(url.as_str());
    s.append("\">");
    s.append(url.as_str());
    s.append("</a>");
    s
}

fn stars_alert(name: &String, old: u64, new: u64, url: &String, now: Timestamp) -> (a: Alert)
    ensures
        a@ == (AlertView {
            telegram_text: stars_telegram(name@, old, new, url@),
            repo: name@,
            message: stars_message(old, new),
            timestamp: now,
            kind: NotificationKind::StarChange,
        }),
{
    let diff: i64 = (new as i64).wrapping_sub(old as i64);
    let mut message = String::from_str("Stars : ");
    message.append(change_string(old, new).as_str());
    let mut telegram_text = if diff > 0 {
        String::from_str("📈")
    } else {
        String::from_str("📉")
    };
    telegram_text.append(" <b>");
    telegram_text.append(name.as_str());
    telegram_text.append("</b>\n");
    telegram_text.append(message.as_str());
    telegram_text.append("\n");
    telegram_text.append(link_string(url).as_str());
    Alert {
        telegram_text,
        notification: Notification {
            repo: name.clone(),
            message,
            timestamp: now,
            kind: NotificationKind::StarChange,
        },
    }
}

fn forks_alert(name: &String, old: u64, new: u64, url: &String, now: Timestamp) -> (a: Alert)
    ensures
        a@ == (AlertView {
            telegram_text: forks_telegram(name@, old, new, url@),
            repo: name@,
            message: forks_message(old, new),
            timestamp: now,
            kind: NotificationKind::ForkChange,
        }),
{
    let mut message = String::from_str("Forks : ");
    message.append(change_string(old, new).as_str());
    let mut telegram_text = String::from_str("🍴 <b>");
    telegram_text.append(name.as_str());
    telegram_text.append("</b>\n");
    telegram_text.append(message.as_str());
    telegram_text.append("\n");
    telegram_text.append(link_string(url).as_str());
    Alert {
        telegram_text,
        notification: Notification {
            repo: name.clone(),
            message,
            timestamp: now,
            kind: NotificationKind::ForkChange,
        },
    }
}

fn release_alert(name: &String, tag: &String, url: &String, now: Timestamp) -> (a: Alert)
    ensures
        a@ == (AlertView {
            telegram_text: release_telegram(name@, tag@, url@),
            repo: name@,
            message: release_message(tag@),
            timestamp: now,
            kind: NotificationKind::NewRelease,
        }),
{
    let mut message = String::from_str("Nouvelle release : ");
    message.append(tag.as_str());
    let mut telegram_text = String::from_str("🚀 <b>");
    telegram_text.append(name.as_str());
    telegram_text.append("</b>\nNouvelle release : <b>");
    telegram_text.append(tag.as_str());
    telegram_text.append("</b>\n");
    telegram_text.append(link_string(url).as_str());
    Alert {
        telegram_text,
        notification: Notification {
            repo: name.clone(),
            message,
            timestamp: now,
            kind: NotificationKind::NewRelease,
        },
    }
}

/// The tag of the latest release, if there is one.
pub open spec fn release_tag(release: Option<GitHubRelease>) -> Option<String> {
    match release {
        Some(r) => Some(r.tag_name),
        None => None,
    }
}

/// Checks one repository against what was remembered of it (`prev`; `None` on its first
/// check), given what GitHub reports of it now (`repo`, and `release`, its latest release if
/// any). Yields the changes to announce and the state to remember, checked at `now`.
pub fn plan_check(
    cfg: &RepoConfig,
    prev: &Option<RepoState>,
    repo: &GitHubRepo,
    release: &Option<GitHubRelease>,
    now: Timestamp,
) -> (r: CheckOutcome)
    ensures
        r.alerts@.map_values(|a: Alert| a@) == planned_alerts(*cfg, *prev, *repo, *release, now),
        r.state.full_name@ == full_name_text(cfg.owner@, cfg.repo@),
        r.state.stars == repo.stargazers_count,
        r.state.forks == repo.forks_count,
        r.state.latest_release == release_tag(*release),
        r.state.description == repo.description,
        r.state.html_url == repo.html_url,
        r.state.last_checked == now,
{
    let name = cfg.full_name();
    let mut alerts: Vec<Alert> = Vec::new();
    match prev {
        Some(p) => {
            if cfg.notify_stars && repo.stargazers_count != p.stars {
                alerts.push(stars_alert(&name, p.stars, repo.stargazers_count, &repo.html_url, now));
            }
            if cfg.notify_forks && repo.forks_count != p.forks {
                alerts.push(forks_alert(&name, p.forks, repo.forks_count, &repo.html_url, now));
            }
            if cfg.notify_releases {
                match release {
                    Some(rel) => {
                        let is_new = match &p.latest_release {
                            Some(old) => !(*old == rel.tag_name),
                            None => true,
                        };
                        if is_new {
                            alerts.push(release_alert(&name, &rel.tag_name, &rel.html_url, now));
                        }
                    },
                    None => {},
                }
            }
            assert(alerts@.map_values(|a: Alert| a@) =~= planned_alerts(
                *cfg,
                *prev,
                *repo,
                *release,
                now,
            ));
        },
        None => {
            assert(alerts@.map_values(|a: Alert| a@) =~= planned_alerts(
                *cfg,
                *prev,
                *repo,
                *release,
                now,
            ));
        },
    }
    let latest_release = match release {
        Some(rel) => Some(rel.tag_name.clone()),
        None => None,
    };
    let state = RepoState {
        full_name: name,
        stars: repo.stargazers_count,
        forks: repo.forks_count,
        latest_release,
        description: copy_opt_string(&repo.description),
        html_url: repo.html_url.clone(),
        last_checked: now,
    };
    CheckOutcome { alerts, state }
}

/// Whether a check asks for the latest release: only once the repository itself was read.
pub fn wants_release(repo: &Result<GitHubRepo, String>) -> (b: bool)
    ensures
        b == repo is Ok,
{
    repo.is_ok()
}

/// What a check of a repository goes on with, from GitHub's two answers: the repository and
/// its latest release (`None` where it has none) when both were read, else the error of the
/// first request that failed. `release` counts only where the repository was read.
pub fn check_answers(
    repo: Result<GitHubRepo, String>,
    release: Result<Option<GitHubRelease>, String>,
) -> (fetched: Result<(GitHubRepo, Option<GitHubRelease>), String>)
    ensures
        match (repo, release) {
            (Err(e), _) => fetched == Err::<(GitHubRepo, Option<GitHubRelease>), String>(e),
            (Ok(_), Err(e)) => fetched == Err::<(GitHubRepo, Option<GitHubRelease>), String>(e),
            (Ok(r), Ok(rel)) => fetched == Ok::<(GitHubRepo, Option<GitHubRelease>), String>(
                (r, rel),
            ),
        },
{
    match repo {
        Err(e) => Err(e),
        Ok(r) => match release {
            Err(e) => Err(e),
            Ok(rel) => Ok((r, rel)),
        },
    }
}

/// A change of stars, where announced, is the first alert of the check, and its chat message
/// opens with the rising chart 📈 exactly when the new count less the old one, both taken as
/// signed 64-bit numbers with the difference wrapping, is positive, and with the falling
/// chart 📉 otherwise. So one more star shows 📈 and one fewer shows 📉.
pub proof fn lemma_star_chart(
    cfg: RepoConfig,
    prev: RepoState,
    repo: GitHubRepo,
    release: Option<GitHubRelease>,
    now: Timestamp,
)
    requires
        cfg.notify_stars,
        repo.stargazers_count != prev.stars,
    ensures
        planned_alerts(cfg, Some(prev), repo, release, now).len() > 0,
        planned_alerts(cfg, Some(prev), repo, release, now)[0].kind == NotificationKind::StarChange,
        planned_alerts(cfg, Some(prev), repo, release, now)[0].telegram_text.len() > 0,
        planned_alerts(cfg, Some(prev), repo, release, now)[0].telegram_text[0] == (if (
        repo.stargazers_count as i64).wrapping_sub(prev.stars as i64) > 0 {
            '📈'
        } else {
            '📉'
        }),
        repo.stargazers_count == prev.stars + 1 && repo.stargazers_count <= i64::MAX ==> planned_alerts(
            cfg,
            Some(prev),
            repo,
            release,
            now,
        )[0].telegram_text[0] == '📈',
        prev.stars == repo.stargazers_count + 1 && prev.stars <= i64::MAX ==> planned_alerts(
            cfg,
            Some(prev),
            repo,
            release,
            now,
        )[0].telegram_text[0] == '📉',
{
    reveal_strlit("📈");
    reveal_strlit("📉");
    let a = planned_alerts(cfg, Some(prev), repo, release, now);
    let chart = if count_change(repo.stargazers_count, prev.stars) > 0 {
        "📈"@
    } else {
        "📉"@
    };
    let rest = " <b>"@ + full_name_text(cfg.owner@, cfg.repo@) + "</b>\n"@ + stars_message(
        prev.stars,
        repo.stargazers_count,
    ) + "\n"@ + link_text(repo.html_url@);
    assert(a[0].telegram_text == chart + rest);
    assert((chart + rest)[0] == chart[0]);
    let d = (repo.stargazers_count as i64).wrapping_sub(prev.stars as i64);
    if repo.stargazers_count == prev.stars + 1 && repo.stargazers_count <= i64::MAX {
        assert(d == 1);
    }
    if prev.stars == repo.stargazers_count + 1 && prev.stars <= i64::MAX {
        assert(d == -1);
    }
}

/// A release is announced only where the repository's `notify_releases` is on, whatever its
/// other switches say.
pub proof fn lemma_release_needs_its_switch(
    cfg: RepoConfig,
    prev: Option<RepoState>,
    repo: GitHubRepo,
    release: Option<GitHubRelease>,
    now: Timestamp,
)
    requires
        !cfg.notify_releases,
    ensures
        forall|i: int|
            0 <= i < planned_alerts(cfg, prev, repo, release, now).len() ==> #[trigger] planned_alerts(
                cfg,
                prev,
                repo,
                release,
                now,
            )[i].kind != NotificationKind::NewRelease,
{
}

/// Where `notify_releases` is on and GitHub's latest release has a tag other than the one
/// remembered (or none was remembered), the check announces that release, as its last
/// alert: `Nouvelle release : <tag>`, with a chat message naming the tag. Where the tag is
/// the remembered one, no release is announced.
pub proof fn lemma_new_tag_is_announced(
    cfg: RepoConfig,
    prev: RepoState,
    repo: GitHubRepo,
    r: GitHubRelease,
    now: Timestamp,
)
    requires
        cfg.notify_releases,
    ensures
        (prev.latest_release matches Some(old) ==> old@ != r.tag_name@) ==> {
            let alerts = planned_alerts(cfg, Some(prev), repo, Some(r), now);
            &&& alerts.len() > 0
            &&& alerts.last().kind == NotificationKind::NewRelease
            &&& alerts.last().message == "Nouvelle release : "@ + r.tag_name@
            &&& alerts.last().repo == full_name_text(cfg.owner@, cfg.repo@)
            &&& alerts.last().telegram_text == "🚀 <b>"@ + full_name_text(cfg.owner@, cfg.repo@)
                + "</b>\nNouvelle release : <b>"@ + r.tag_name@ + "</b>\n"@ + "<a href=\""@
                + r.html_url@ + "\">"@ + r.html_url@ + "</a>"@
        },
        (prev.latest_release matches Some(old) && old@ == r.tag_name@) ==> forall|i: int|
            0 <= i < planned_alerts(cfg, Some(prev), repo, Some(r), now).len() ==> #[trigger] planned_alerts(
                cfg,
                Some(prev),
                repo,
                Some(r),
                now,
            )[i].kind != NotificationKind::NewRelease,
{
    let alerts = planned_alerts(cfg, Some(prev), repo, Some(r), now);
    if (prev.latest_release matches Some(old) ==> old@ != r.tag_name@) {
        assert(alerts.last() == alerts[alerts.len() - 1]);
        let name = full_name_text(cfg.owner@, cfg.repo@);
        assert(link_text(r.html_url@) == "<a href=\""@ + r.html_url@ + "\">"@ + r.html_url@
            + "</a>"@);
        assert(release_telegram(name, r.tag_name@, r.html_url@) =~= "🚀 <b>"@ + name
            + "</b>\nNouvelle release : <b>"@ + r.tag_name@ + "</b>\n"@ + "<a href=\""@ + r.html_url@
            + "\">"@ + r.html_url@ + "</a>"@);
    }
}

/// Which changes a check announces, and how, when something was remembered of the
/// repository: a change of stars exactly when `notify_stars` is on and the star count
/// differs, a change of forks exactly when `notify_forks` is on and the fork count differs,
/// a release exactly when `notify_releases` is on and the latest release's tag is not the
/// remembered one; in that order, one alert each, each about the repository and made at the
/// time of the check. The dashboard messages of the counts read `Stars : old → new (±d)` and
/// `Forks : old → new (±d)`, `d` being the signed 64-bit difference, wrapping.
pub proof fn lemma_alerts_follow_the_switches(
    cfg: RepoConfig,
    prev: RepoState,
    repo: GitHubRepo,
    release: Option<GitHubRelease>,
    now: Timestamp,
)
    ensures
        ({
            let alerts = planned_alerts(cfg, Some(prev), repo, release, now);
            let sc = cfg.notify_stars && repo.stargazers_count != prev.stars;
            let fc = cfg.notify_forks && repo.forks_count != prev.forks;
            let rc = cfg.notify_releases && release is Some && (prev.latest_release is None
                || prev.latest_release->0@ != release->0.tag_name@);
            let fi: int = if sc { 1 } else { 0 };
            &&& alerts.len() == fi + (if fc { 1int } else { 0 }) + (if rc { 1int } else { 0 })
            &&& sc ==> alerts[0].kind == NotificationKind::StarChange && alerts[0].message == "Stars : "@
                + decimal_text(prev.stars as nat) + " → "@ + decimal_text(repo.stargazers_count as nat)
                + " ("@ + signed_text(
                (repo.stargazers_count as i64).wrapping_sub(prev.stars as i64) as int,
            ) + ")"@
            &&& fc ==> alerts[fi].kind == NotificationKind::ForkChange && alerts[fi].message
                == "Forks : "@ + decimal_text(prev.forks as nat) + " → "@ + decimal_text(
                repo.forks_count as nat,
            ) + " ("@ + signed_text((repo.forks_count as i64).wrapping_sub(prev.forks as i64) as int)
                + ")"@
            &&& rc ==> alerts[alerts.len() - 1].kind == NotificationKind::NewRelease
            &&& forall|i: int|
                0 <= i < alerts.len() ==> (#[trigger] alerts[i]).repo == full_name_text(
                    cfg.owner@,
                    cfg.repo@,
                ) && alerts[i].timestamp == now
        }),
{
    let alerts = planned_alerts(cfg, Some(prev), repo, release, now);
    assert(stars_message(prev.stars, repo.stargazers_count) =~= "Stars : "@ + decimal_text(
        prev.stars as nat,
    ) + " → "@ + decimal_text(repo.stargazers_count as nat) + " ("@ + signed_text(
        (repo.stargazers_count as i64).wrapping_sub(prev.stars as i64) as int,
    ) + ")"@);
    assert(forks_message(prev.forks, repo.forks_count) =~= "Forks : "@ + decimal_text(
        prev.forks as nat,
    ) + " → "@ + decimal_text(repo.forks_count as nat) + " ("@ + signed_text(
        (repo.forks_count as i64).wrapping_sub(prev.forks as i64) as int,
    ) + ")"@);
}

/// The first check of a repository, when nothing was remembered of it, announces nothing.
pub proof fn lemma_first_check_is_silent(
    cfg: RepoConfig,
    repo: GitHubRepo,
    release: Option<GitHubRelease>,
    now: Timestamp,
)
    ensures
        planned_alerts(cfg, None, repo, release, now) == Seq::<AlertView>::empty(),
{
}

/// A check that finds the counts and the latest release tag as they were remembered
/// announces nothing.
pub proof fn lemma_unchanged_check_is_silent(
    cfg: RepoConfig,
    prev: RepoState,
    repo: GitHubRepo,
    release: Option<GitHubRelease>,
    now: Timestamp,
)
    requires
        repo.stargazers_count == prev.stars,
        repo.forks_count == prev.forks,
        release matches Some(r) ==> prev.latest_release matches Some(old) && old@ == r.tag_name@,
    ensures
        planned_alerts(cfg, Some(prev), repo, release, now) == Seq::<AlertView>::empty(),
{
    assert(planned_alerts(cfg, Some(prev), repo, release, now) =~= Seq::<AlertView>::empty());
}

/// Checking a repository again, when GitHub reports the same as at the check before,
/// announces nothing: the state that a check remembers silences a repeat of it.
pub proof fn lemma_repeated_check_is_silent(
    cfg: RepoConfig,
    remembered: RepoState,
    repo: GitHubRepo,
    release: Option<GitHubRelease>,
    now: Timestamp,
)
    requires
        remembered.stars == repo.stargazers_count,
        remembered.forks == repo.forks_count,
        remembered.latest_release == release_tag(release),
    ensures
        planned_alerts(cfg, Some(remembered), repo, release, now) == Seq::<AlertView>::empty(),
{
    lemma_unchanged_check_is_silent(cfg, remembered, repo, release, now);
}

/// Each alert of a check is about the checked repository, made at the time of the check,
/// and there are at most three: one of stars, one of forks, one of a release, in that order.
pub proof fn lemma_alerts_shape(
    cfg: RepoConfig,
    prev: Option<RepoState>,
    repo: GitHubRepo,
    release: Option<GitHubRelease>,
    now: Timestamp,
)
    ensures
        planned_alerts(cfg, prev, repo, release, now).len() <= 3,
        forall|i: int|
            0 <= i < planned_alerts(cfg, prev, repo, release, now).len() ==> {
                let a = #[trigger] planned_alerts(cfg, prev, repo, release, now)[i];
                &&& a.repo == full_name_text(cfg.owner@, cfg.repo@)
                &&& a.timestamp == now
            },
{
}

} // verus!
