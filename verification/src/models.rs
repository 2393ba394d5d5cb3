//! The data that the tracker keeps and exchanges.

use vstd::prelude::*;
use vstd::string::*;

verus! {

/// An instant in UTC: whole seconds since 1970-01-01 00:00:00 and the nanoseconds past them.
#[derive(Clone, Copy, Debug, PartialEq, Eq, Structural)]
pub struct Timestamp {
    pub secs: i64,
    pub nanos: u32,
}

/// One watched repository and which changes of it are announced.
#[derive(Debug, Clone)]
pub struct RepoConfig {
    pub owner: String,
    pub repo: String,
    pub notify_releases: bool,
    pub notify_stars: bool,
    pub notify_forks: bool,
}

/// The value a missing `notify_releases` or `notify_stars` entry takes.
pub fn default_true() -> (b: bool)
    ensures
        b,
{
    true
}

/// `owner/repo`.
pub open spec fn full_name_text(owner: Seq<char>, repo: Seq<char>) -> Seq<char> {
    owner + seq!['/'] + repo
}

impl RepoConfig {
    /// The repository's name as GitHub writes it: `owner/repo`.
    pub fn full_name(&self) -> (name: String)
        ensures
            name@ == full_name_text(self.owner@, self.repo@),
    {
        let slash = "/";
        proof {
            reveal_strlit("/");
        }
        let mut name = self.owner.clone();
        name.append(slash);
        name.append(self.repo.as_str());
        name
    }
}

/// The list of watched repositories, as the repository file holds it.
#[derive(Debug, Clone)]
pub struct ReposConfig {
    pub repos: Vec<RepoConfig>,
}

/// What was last seen of one repository.
#[derive(Debug, Clone)]
pub struct RepoState {
    pub full_name: String,
    pub stars: u64,
    pub forks: u64,
    pub latest_release: Option<String>,
    pub description: Option<String>,
    pub html_url: String,
    pub last_checked: Timestamp,
}

/// A repository as GitHub's API describes it.
#[derive(Debug, Clone)]
pub struct GitHubRepo {
    pub full_name: String,
    pub stargazers_count: u64,
    pub forks_count: u64,
    pub description: Option<String>,
    pub html_url: String,
}

/// A release as GitHub's API describes it.
#[derive(Debug, Clone)]
pub struct GitHubRelease {
    pub tag_name: String,
    pub name: Option<String>,
    pub html_url: String,
    pub published_at: Option<String>,
}

/// One event shown on the dashboard.
#[derive(Debug, Clone)]
pub struct Notification {
    pub repo: String,
    pub message: String,
    pub timestamp: Timestamp,
    pub kind: NotificationKind,
}

/// A notification with its texts taken as character sequences.
pub ghost struct NotificationView {
    pub repo: Seq<char>,
    pub message: Seq<char>,
    pub timestamp: Timestamp,
    pub kind: NotificationKind,
}

impl View for Notification {
    type V = NotificationView;

    open spec fn view(&self) -> NotificationView {
        NotificationView {
            repo: self.repo@,
            message: self.message@,
            timestamp: self.timestamp,
            kind: self.kind,
        }
    }
}

/// What a notification is about.
#[derive(Debug, Clone, Copy, PartialEq, Eq, Structural)]
pub enum NotificationKind {
    NewRelease,
    StarChange,
    ForkChange,
    Info,
    Error,
}

/// The word that names a kind of notification.
pub open spec fn kind_label(kind: NotificationKind) -> Seq<char> {
    match kind {
        NotificationKind::NewRelease => "Release"@,
        NotificationKind::StarChange => "Stars"@,
        NotificationKind::ForkChange => "Forks"@,
        NotificationKind::Info => "Info"@,
        NotificationKind::Error => "Erreur"@,
    }
}

impl NotificationKind {
    /// The word that names this kind: `Release`, `Stars`, `Forks`, `Info` or `Erreur`.
    pub fn to_string(&self) -> (s: String)
        ensures
            s@ == kind_label(*self),
    {
        match self {
            NotificationKind::NewRelease => String::from_str("Release"),
            NotificationKind::StarChange => String::from_str("Stars"),
            NotificationKind::ForkChange => String::from_str("Forks"),
            NotificationKind::Info => String::from_str("Info"),
            NotificationKind::Error => String::from_str("Erreur"),
        }
    }
}

/// A copy of an optional text, equal to it.
pub fn copy_opt_string(s: &Option<String>) -> (r: Option<String>)
    ensures
        r == *s,
{
    match s {
        Some(t) => Some(t.clone()),
        None => None,
    }
}

impl RepoState {
    /// A copy of this state, equal to it.
    pub fn copy(&self) -> (r: RepoState)
        ensures
            r == *self,
    {
        RepoState {
            full_name: self.full_name.clone(),
            stars: self.stars,
            forks: self.forks,
            latest_release: copy_opt_string(&self.latest_release),
            description: copy_opt_string(&self.description),
            html_url: self.html_url.clone(),
            last_checked: self.last_checked,
        }
    }
}

impl Notification {
    /// A copy of this notification, equal to it.
    pub fn copy(&self) -> (r: Notification)
        ensures
            r == *self,
    {
        Notification {
            repo: self.repo.clone(),
            message: self.message.clone(),
            timestamp: self.timestamp,
            kind: self.kind,
        }
    }
}

} // verus!
