//! The state that the watch loop fills and the dashboard reads.

use vstd::prelude::*;
use crate::models::{
    full_name_text, GitHubRelease, GitHubRepo, Notification, NotificationKind, NotificationView,
    RepoConfig, RepoState, Timestamp,
};
use crate::monitor::{
    alert_notification, plan_check, planned_alerts, release_tag, Alert, AlertView, CheckOutcome,
};
use vstd::string::*;

verus! {

/// How many notifications the state keeps: the most recent ones.
pub const MAX_NOTIFICATIONS: usize = 100;

/// Whether no two states in `s` are for the same repository.
pub open spec fn names_distinct(s: Seq<RepoState>) -> bool {
    forall|i: int, j: int|
        0 <= i < s.len() && 0 <= j < s.len() && i != j ==> #[trigger] s[i].full_name@
            != #[trigger] s[j].full_name@
}

/// The states of `s` keyed by repository name; a later state of a name replaces an earlier.
pub open spec fn states_by_name(s: Seq<RepoState>) -> Map<Seq<char>, RepoState>
    decreases s.len(),
{
    if s.len() == 0 {
        Map::empty()
    } else {
        states_by_name(s.drop_last()).insert(s.last().full_name@, s.last())
    }
}

/// The notifications that `s` leaves when only the `MAX_NOTIFICATIONS` latest are kept.
pub open spec fn most_recent<T>(s: Seq<T>) -> Seq<T> {
    if s.len() > MAX_NOTIFICATIONS {
        s.subrange(s.len() - MAX_NOTIFICATIONS, s.len() as int)
    } else {
        s
    }
}

/// A state is found under its repository's name; a name is found only where a state has it.
pub proof fn lemma_states_by_name_lookup(s: Seq<RepoState>)
    requires
        names_distinct(s),
    ensures
        forall|i: int|
            0 <= i < s.len() ==> #[trigger] states_by_name(s).contains_key(s[i].full_name@)
                && states_by_name(s)[s[i].full_name@] == s[i],
        forall|k: Seq<char>|
            #[trigger] states_by_name(s).contains_key(k) ==> exists|i: int|
                0 <= i < s.len() && s[i].full_name@ == k,
    decreases s.len(),
{
    if s.len() > 0 {
        let p = s.drop_last();
        assert(names_distinct(p)) by {
            assert forall|i: int, j: int|
                0 <= i < p.len() && 0 <= j < p.len() && i != j implies #[trigger] p[i].full_name@
                != #[trigger] p[j].full_name@ by {
                assert(s[i] == p[i] && s[j] == p[j]);
            }
        }
        lemma_states_by_name_lookup(p);
        assert forall|i: int| 0 <= i < s.len() implies #[trigger] states_by_name(s).contains_key(
            s[i].full_name@,
        ) && states_by_name(s)[s[i].full_name@] == s[i] by {
            assert(states_by_name(s) == states_by_name(p).insert(s.last().full_name@, s.last()));
            if i < s.len() - 1 {
                assert(p[i] == s[i]);
                assert(states_by_name(p).contains_key(p[i].full_name@));
                assert(s[i].full_name@ != s[s.len() - 1].full_name@);
            }
        }
        assert forall|k: Seq<char>| #[trigger]
            states_by_name(s).contains_key(k) implies exists|i: int|
            0 <= i < s.len() && s[i].full_name@ == k by {
            assert(states_by_name(s) == states_by_name(p).insert(s.last().full_name@, s.last()));
            if k != s.last().full_name@ {
                assert(states_by_name(p).contains_key(k));
                let i = choose|i: int| 0 <= i < p.len() && p[i].full_name@ == k;
                assert(s[i] == p[i]);
            } else {
                assert(s[s.len() - 1].full_name@ == k);
            }
        }
    }
}

/// Replacing the state of a name in place changes the keyed states as an insert does.
pub proof fn lemma_states_by_name_update(s: Seq<RepoState>, i: int, x: RepoState)
    requires
        names_distinct(s),
        0 <= i < s.len(),
        s[i].full_name@ == x.full_name@,
    ensures
        states_by_name(s.update(i, x)) == states_by_name(s).insert(x.full_name@, x),
    decreases s.len(),
{
    let p = s.drop_last();
    let u = s.update(i, x);
    if i == s.len() - 1 {
        assert(u.drop_last() =~= p);
        assert(states_by_name(u) =~= states_by_name(s).insert(x.full_name@, x));
    } else {
        assert(names_distinct(p)) by {
            assert forall|a: int, b: int|
                0 <= a < p.len() && 0 <= b < p.len() && a != b implies #[trigger] p[a].full_name@
                != #[trigger] p[b].full_name@ by {
                assert(s[a] == p[a] && s[b] == p[b]);
            }
        }
        lemma_states_by_name_update(p, i, x);
        assert(u.drop_last() =~= p.update(i, x));
        assert(s[i].full_name@ != s[s.len() - 1].full_name@);
        assert(states_by_name(u) =~= states_by_name(s).insert(x.full_name@, x));
    }
}

/// Keeping the latest notifications after each addition keeps the same ones as keeping the
/// latest after all of them: `most_recent` of an addition to a trimmed list is `most_recent`
/// of the addition to the whole list.
pub proof fn lemma_most_recent_push<T>(s: Seq<T>, x: T)
    ensures
        most_recent(most_recent(s).push(x)) == most_recent(s.push(x)),
{
    assert(most_recent(most_recent(s).push(x)) =~= most_recent(s.push(x)));
}

/// Keeping the latest notifications after each of several additions keeps the same ones as
/// keeping the latest after all of them.
pub proof fn lemma_most_recent_concat<T>(s: Seq<T>, t: Seq<T>)
    ensures
        most_recent(most_recent(s) + t) == most_recent(s + t),
    decreases t.len(),
{
    if t.len() > 0 {
        let u = t.drop_last();
        lemma_most_recent_concat(s, u);
        assert(most_recent(s) + t == (most_recent(s) + u).push(t.last()));
        assert(s + t == (s + u).push(t.last()));
        lemma_most_recent_push(most_recent(s) + u, t.last());
        lemma_most_recent_push(s + u, t.last());
    } else {
        assert(most_recent(s) + t =~= most_recent(s));
        assert(s + t =~= s);
    }
}

/// What is recorded of a repository is what is then found under its name, and the other
/// repositories keep what was recorded of them.
pub proof fn lemma_recorded_state_is_found(m: Map<Seq<char>, RepoState>, st: RepoState, name: Seq<char>)
    ensures
        m.insert(st.full_name@, st).contains_key(st.full_name@),
        m.insert(st.full_name@, st)[st.full_name@] == st,
        name != st.full_name@ ==> (m.insert(st.full_name@, st).contains_key(name) == m.contains_key(name)),
        name != st.full_name@ && m.contains_key(name) ==> m.insert(st.full_name@, st)[name] == m[name],
{
}

/// The latest notification is always kept, as the last one, and no more than
/// `MAX_NOTIFICATIONS` are.
pub proof fn lemma_newest_notification_kept<T>(s: Seq<T>, x: T)
    ensures
        most_recent(s.push(x)).len() <= MAX_NOTIFICATIONS,
        most_recent(s.push(x)).len() > 0,
        most_recent(s.push(x)).last() == x,
{
}

/// The state keeps the 100 latest notifications, or all where there are fewer, in the order
/// in which they came.
pub proof fn lemma_keeps_latest_hundred<T>(s: Seq<T>)
    ensures
        most_recent(s).len() == (if s.len() < 100 { s.len() } else { 100 }),
        forall|i: int|
            0 <= i < most_recent(s).len() ==> #[trigger] most_recent(s)[i] == s[s.len() - most_recent(
                s,
            ).len() + i],
{
}

/// Keeping the latest items commutes with looking at each item in another way.
pub proof fn lemma_most_recent_map<T, U>(s: Seq<T>, f: spec_fn(T) -> U)
    ensures
        most_recent(s).map_values(f) == most_recent(s.map_values(f)),
{
    assert(most_recent(s).map_values(f) =~= most_recent(s.map_values(f)));
}

/// The dashboard message of a failed request to GitHub.
pub open spec fn api_error_message(error: Seq<char>) -> Seq<char> {
    "Erreur API: "@ + error
}

/// The notification that a request to GitHub about `repo` failed with `error`, at `now`.
pub fn api_error_notification(repo: &String, error: &str, now: Timestamp) -> (n: Notification)
    ensures
        n.repo == *repo,
        n.message@ == api_error_message(error@),
        n.timestamp == now,
        n.kind == NotificationKind::Error,
{
    let mut message = String::from_str("Erreur API: ");
    message.append(error);
    Notification { repo: repo.clone(), message, timestamp: now, kind: NotificationKind::Error }
}

/// What the watch loop has seen: the last state of each repository, and the latest
/// notifications, oldest first.
///
/// The states are kept in a vector with one entry per name, seen through `repo_map`: vstd
/// models the contents of a `HashMap` only for keys whose hashing it knows, and `String`
/// is not among them.
pub struct AppState {
    repos: Vec<RepoState>,
    notifications: Vec<Notification>,
}

impl AppState {
    #[verifier::type_invariant]
    spec fn well_formed(self) -> bool {
        &&& names_distinct(self.repos@)
        &&& self.notifications@.len() <= MAX_NOTIFICATIONS
    }

    /// The repository states, in the order in which their repositories were first recorded.
    pub closed spec fn repo_list(self) -> Seq<RepoState> {
        self.repos@
    }

    /// The notifications kept, oldest first.
    pub closed spec fn notification_list(self) -> Seq<Notification> {
        self.notifications@
    }

    /// The repository states keyed by repository name.
    pub open spec fn repo_map(self) -> Map<Seq<char>, RepoState> {
        states_by_name(self.repo_list())
    }

    /// An empty state: no repository, no notification.
    pub fn new() -> (s: AppState)
        ensures
            s.repo_list() == Seq::<RepoState>::empty(),
            s.notification_list() == Seq::<Notification>::empty(),
    {
        AppState { repos: Vec::new(), notifications: Vec::new() }
    }

    /// The repository states.
    pub fn repos(&self) -> (r: &Vec<RepoState>)
        ensures
            r@ == self.repo_list(),
            names_distinct(r@),
    {
        proof {
            use_type_invariant(self);
        }
        &self.repos
    }

    /// The notifications kept, oldest first.
    pub fn notifications(&self) -> (r: &Vec<Notification>)
        ensures
            r@ == self.notification_list(),
            r@.len() <= MAX_NOTIFICATIONS,
    {
        proof {
            use_type_invariant(self);
        }
        &self.notifications
    }

    /// Records `notif` as the latest notification; of all notifications, only the
    /// `MAX_NOTIFICATIONS` most recent are kept.
    pub fn add_notification(&mut self, notif: Notification)
        ensures
            final(self).notification_list() == most_recent(old(self).notification_list().push(notif)),
            final(self).repo_list() == old(self).repo_list(),
    {
        proof {
            use_type_invariant(&*self);
        }
        let mut list: Vec<Notification> = Vec::new();
        std::mem::swap(&mut list, &mut self.notifications);
        list.push(notif);
        if list.len() > MAX_NOTIFICATIONS {
            let drain_count: usize = list.len() - MAX_NOTIFICATIONS;
            list = list.split_off(drain_count);
        }
        self.notifications = list;
    }

    /// Records `state` as the last state of its repository: it replaces the state of the same
    /// name in place, or is added after the others where there is none.
    pub fn update_repo(&mut self, state: RepoState)
        ensures
            final(self).repo_map() == old(self).repo_map().insert(state.full_name@, state),
            forall|i: int|
                0 <= i < old(self).repo_list().len() && #[trigger] old(self).repo_list()[i].full_name@
                    == state.full_name@ ==> final(self).repo_list() == old(self).repo_list().update(
                    i,
                    state,
                ),
            (forall|i: int|
                0 <= i < old(self).repo_list().len() ==> #[trigger] old(self).repo_list()[i].full_name@
                    != state.full_name@) ==> final(self).repo_list() == old(self).repo_list().push(
                state,
            ),
            names_distinct(final(self).repo_list()),
            final(self).notification_list() == old(self).notification_list(),
    {
        proof {
            use_type_invariant(&*self);
        }
        let mut list: Vec<RepoState> = Vec::new();
        std::mem::swap(&mut list, &mut self.repos);
        let ghost before = list@;
        let mut i: usize = 0;
        while i < list.len()
            invariant
                list@ == before,
                names_distinct(before),
                i <= list.len(),
                forall|j: int| 0 <= j < i ==> #[trigger] before[j].full_name@ != state.full_name@,
            ensures
                i <= list.len(),
                i < list.len() ==> before[i as int].full_name@ == state.full_name@,
                forall|j: int| 0 <= j < i ==> #[trigger] before[j].full_name@ != state.full_name@,
            decreases list.len() - i,
        {
            if list[i].full_name == state.full_name {
                break;
            }
            i = i + 1;
        }
        if i < list.len() {
            proof {
                lemma_states_by_name_update(before, i as int, state);
                assert forall|a: int| 0 <= a < before.len() && #[trigger] before[a].full_name@ == state.full_name@
                    implies a == i by {
                    if a != i {
                        assert(before[a].full_name@ != before[i as int].full_name@);
                    }
                }
            }
            list.set(i, state);
            assert(names_distinct(list@)) by {
                assert forall|a: int, b: int|
                    0 <= a < list@.len() && 0 <= b < list@.len() && a != b implies #[trigger] list@[a].full_name@
                    != #[trigger] list@[b].full_name@ by {
                    assert(before[a].full_name@ == list@[a].full_name@ || a == i);
                    assert(before[b].full_name@ == list@[b].full_name@ || b == i);
                }
            }
        } else {
            assert(list@.push(state).drop_last() =~= before);
            list.push(state);
            assert(names_distinct(list@)) by {
                assert forall|a: int, b: int|
                    0 <= a < list@.len() && 0 <= b < list@.len() && a != b implies #[trigger] list@[a].full_name@
                    != #[trigger] list@[b].full_name@ by {
                    if a < before.len() && b < before.len() {
                        assert(list@[a] == before[a] && list@[b] == before[b]);
                    } else if a < before.len() {
                        assert(list@[a] == before[a]);
                    } else {
                        assert(list@[b] == before[b]);
                    }
                }
            }
        }
        self.repos = list;
    }

    /// The last state recorded of the repository named `full_name`, if any.
    pub fn repo_state(&self, full_name: &String) -> (r: Option<RepoState>)
        ensures
            r == (if self.repo_map().contains_key(full_name@) {
                Some(self.repo_map()[full_name@])
            } else {
                None
            }),
    {
        proof {
            use_type_invariant(self);
            lemma_states_by_name_lookup(self.repos@);
        }
        let mut i: usize = 0;
        while i < self.repos.len()
            invariant
                i <= self.repos@.len(),
                names_distinct(self.repos@),
                forall|j: int| 0 <= j < i ==> #[trigger] self.repos@[j].full_name@ != full_name@,
            decreases self.repos.len() - i,
        {
            if self.repos[i].full_name == *full_name {
                proof {
                    lemma_states_by_name_lookup(self.repos@);
                }
                return Some(self.repos[i].copy());
            }
            i = i + 1;
        }
        None
    }

    /// Records the outcome of a check: the repository's new state, then the notification
    /// of each alert, in order.
    pub fn record_check(&mut self, outcome: CheckOutcome)
        ensures
            final(self).repo_map() == old(self).repo_map().insert(
                outcome.state.full_name@,
                outcome.state,
            ),
            names_distinct(final(self).repo_list()),
            final(self).notification_list() == most_recent(
                old(self).notification_list() + outcome.alerts@.map_values(
                    |a: Alert| a.notification,
                ),
            ),
    {
        let CheckOutcome { alerts, state } = outcome;
        self.update_repo(state);
        proof {
            use_type_invariant(&*self);
        }
        let ghost start = self.notification_list();
        let ghost updated = self.repo_list();
        let ghost added = alerts@.map_values(|a: Alert| a.notification);
        proof {
            assert(start + added.take(0) =~= start);
        }
        let mut i: usize = 0;
        while i < alerts.len()
            invariant
                i <= alerts@.len(),
                added == alerts@.map_values(|a: Alert| a.notification),
                self.notification_list() == most_recent(start + added.take(i as int)),
                self.repo_list() == updated,
            decreases alerts.len() - i,
        {
            let n = alerts[i].notification.copy();
            self.add_notification(n);
            proof {
                assert(start + added.take(i + 1) =~= (start + added.take(i as int)).push(n));
                lemma_most_recent_push(start + added.take(i as int), n);
            }
            i = i + 1;
        }
        proof {
            assert(added.take(alerts@.len() as int) =~= added);
            lemma_most_recent_concat(start, added);
        }
    }

    /// The last state recorded under `name`, if any.
    pub open spec fn previous(self, name: Seq<char>) -> Option<RepoState> {
        if self.repo_map().contains_key(name) {
            Some(self.repo_map()[name])
        } else {
            None
        }
    }

    /// Records one check of the repository of `cfg` from what GitHub answered: the repository
    /// and its latest release (`None` where it has none), or the error of a request that
    /// failed. A failure adds an error notification and leaves the repository as it was
    /// recorded; an answer records the new state and the notifications of the changes.
    /// Returns the chat messages to send, in order.
    pub fn check_repository(
        &mut self,
        cfg: &RepoConfig,
        fetched: Result<(GitHubRepo, Option<GitHubRelease>), String>,
        now: Timestamp,
    ) -> (messages: Vec<String>)
        ensures
            names_distinct(final(self).repo_list()),
            match fetched {
                Err(e) => {
                    &&& final(self).repo_map() == old(self).repo_map()
                    &&& final(self).notification_list().map_values(|n: Notification| n@)
                        == most_recent(
                        old(self).notification_list().map_values(|n: Notification| n@).push(
                            NotificationView {
                                repo: full_name_text(cfg.owner@, cfg.repo@),
                                message: api_error_message(e@),
                                timestamp: now,
                                kind: NotificationKind::Error,
                            },
                        ),
                    )
                    &&& messages@.len() == 0
                },
                Ok((repo, release)) => {
                    let name = full_name_text(cfg.owner@, cfg.repo@);
                    let alerts = planned_alerts(*cfg, old(self).previous(name), repo, release, now);
                    let st = final(self).repo_map()[name];
                    &&& final(self).repo_map().dom() == old(self).repo_map().dom().insert(name)
                    &&& forall|k: Seq<char>|
                        k != name && #[trigger] old(self).repo_map().contains_key(k)
                            ==> final(self).repo_map()[k] == old(self).repo_map()[k]
                    &&& st.full_name@ == name
                    &&& st.stars == repo.stargazers_count
                    &&& st.forks == repo.forks_count
                    &&& st.latest_release == release_tag(release)
                    &&& st.description == repo.description
                    &&& st.html_url == repo.html_url
                    &&& st.last_checked == now
                    &&& final(self).notification_list().map_values(|n: Notification| n@)
                        == most_recent(
                        old(self).notification_list().map_values(|n: Notification| n@)
                            + alerts.map_values(|a: AlertView| alert_notification(a)),
                    )
                    &&& messages@.map_values(|m: String| m@) == alerts.map_values(
                        |a: AlertView| a.telegram_text,
                    )
                },
            },
    {
        proof {
            use_type_invariant(&*self);
        }
        let name = cfg.full_name();
        match fetched {
            Err(e) => {
                let n = api_error_notification(&name, e.as_str(), now);
                let ghost before = self.notification_list();
                self.add_notification(n);
                proof {
                    lemma_most_recent_map(before.push(n), |n: Notification| n@);
                    assert(before.push(n).map_values(|n: Notification| n@) =~= before.map_values(
                        |n: Notification| n@,
                    ).push(n@));
                }
                Vec::new()
            },
            Ok((repo, release)) => {
                let prev = self.repo_state(&name);
                let outcome = plan_check(cfg, &prev, &repo, &release, now);
                let ghost alerts = planned_alerts(*cfg, prev, repo, release, now);
                let ghost before = self.notification_list();
                let ghost added = outcome.alerts@.map_values(|a: Alert| a.notification);
                let mut messages: Vec<String> = Vec::new();
                let mut i: usize = 0;
                while i < outcome.alerts.len()
                    invariant
                        i <= outcome.alerts@.len(),
                        outcome.alerts@.map_values(|a: Alert| a@) == alerts,
                        messages@.len() == i,
                        forall|j: int| 0 <= j < i ==> #[trigger] messages@[j]@ == alerts[j].telegram_text,
                    decreases outcome.alerts.len() - i,
                {
                    messages.push(outcome.alerts[i].telegram_text.clone());
                    proof {
                        assert(outcome.alerts@.map_values(|a: Alert| a@)[i as int] == outcome.alerts@[i as int]@);
                    }
                    i = i + 1;
                }
                let ghost state = outcome.state;
                self.record_check(outcome);
                proof {
                    assert(messages@.map_values(|m: String| m@) =~= alerts.map_values(
                        |a: AlertView| a.telegram_text,
                    ));
                    lemma_most_recent_map(before + added, |n: Notification| n@);
                    assert(added.map_values(|n: Notification| n@) =~= outcome.alerts@.map_values(
                        |a: Alert| a@,
                    ).map_values(|a: AlertView| alert_notification(a)));
                    assert((before + added).map_values(|n: Notification| n@) =~= before.map_values(
                        |n: Notification| n@,
                    ) + added.map_values(|n: Notification| n@));
                    assert(self.repo_map() == old(self).repo_map().insert(state.full_name@, state));
                    assert(self.repo_map().dom() =~= old(self).repo_map().dom().insert(name@));
                }
                messages
            },
        }
    }
}

} // verus!
