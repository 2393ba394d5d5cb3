//! The dashboard page: the watched repositories, most starred first, and the latest
//! notifications, newest first.

use vstd::prelude::*;
use vstd::string::*;
use crate::clock::{minute_pattern, minute_string, second_pattern, second_string, timestamp_text};
use crate::models::{kind_label, Notification, NotificationKind, RepoState, Timestamp};
use crate::state::AppState;
use crate::text::{decimal_string, decimal_text};

verus! {

/// Whether, on the dashboard, the state at index `a` of `s` comes before the one at `b`:
/// more stars first, and for equal stars the one recorded first.
pub open spec fn shown_before(s: Seq<RepoState>, a: int, b: int) -> bool {
    s[a].stars > s[b].stars || (s[a].stars == s[b].stars && a < b)
}

/// Whether `order` lists each index of `s` once, in the order of the dashboard.
pub open spec fn is_star_order(s: Seq<RepoState>, order: Seq<usize>) -> bool {
    &&& order.len() == s.len()
    &&& forall|i: int| 0 <= i < order.len() ==> #[trigger] order[i] < s.len()
    &&& forall|k: usize| k < s.len() ==> #[trigger] order.contains(k)
    &&& order.no_duplicates()
    &&& forall|i: int, j: int|
        0 <= i < j < order.len() ==> shown_before(s, #[trigger] order[i] as int, #[trigger] order[j] as int)
}

/// The cards go from most stars to fewest: along a dashboard order the star counts never
/// rise, and repositories with equal stars keep the order in which they were recorded.
/// Every recorded repository has its place.
pub proof fn lemma_star_order_descending(s: Seq<RepoState>, order: Seq<usize>)
    requires
        is_star_order(s, order),
    ensures
        order.len() == s.len(),
        forall|k: usize| k < s.len() ==> #[trigger] order.contains(k),
        forall|i: int, j: int|
            0 <= i < j < order.len() ==> s[#[trigger] order[i] as int].stars >= s[#[trigger] order[j] as int].stars,
        forall|i: int, j: int|
            0 <= i < j < order.len() && s[#[trigger] order[i] as int].stars == s[#[trigger] order[j] as int].stars
                ==> order[i] < order[j],
{
    assert forall|i: int, j: int| 0 <= i < j < order.len() implies s[#[trigger] order[i] as int].stars
        >= s[#[trigger] order[j] as int].stars by {
        assert(shown_before(s, order[i] as int, order[j] as int));
    }
    assert forall|i: int, j: int|
        0 <= i < j < order.len() && s[#[trigger] order[i] as int].stars == s[#[trigger] order[j] as int].stars
            implies order[i] < order[j] by {
        assert(shown_before(s, order[i] as int, order[j] as int));
    }
}

/// There is one dashboard order of a list of states, and only one.
pub proof fn lemma_star_order_unique(s: Seq<RepoState>, o1: Seq<usize>, o2: Seq<usize>)
    requires
        is_star_order(s, o1),
        is_star_order(s, o2),
    ensures
        o1 == o2,
{
    if o1.len() > 0 {
        lemma_star_orders_agree_upto(s, o1, o2, o1.len() - 1);
    }
    assert(o1 =~= o2);
}

proof fn lemma_star_orders_agree_upto(s: Seq<RepoState>, o1: Seq<usize>, o2: Seq<usize>, i: int)
    requires
        is_star_order(s, o1),
        is_star_order(s, o2),
        0 <= i < o1.len(),
    ensures
        forall|k: int| 0 <= k <= i ==> o1[k] == o2[k],
    decreases i,
{
    if i > 0 {
        lemma_star_orders_agree_upto(s, o1, o2, i - 1);
    }
    if o1[i] != o2[i] {
        let a: usize = o1[i];
        let b: usize = o2[i];
        assert(o1.contains(b));
        let j1 = choose|j: int| 0 <= j < o1.len() && o1[j] == b;
        assert(o2.contains(a));
        let j2 = choose|j: int| 0 <= j < o2.len() && o2[j] == a;
        if j1 < i {
            assert(o2[j1] == b);
        }
        if j2 < i {
            assert(o1[j2] == a);
        }
        assert(shown_before(s, a as int, b as int));
        assert(shown_before(s, b as int, a as int));
    }
}

/// The indices of `repos` in the order of the dashboard.
pub fn star_order(repos: &Vec<RepoState>) -> (order: Vec<usize>)
    ensures
        is_star_order(repos@, order@),
{
    let ghost s = repos@;
    let mut order: Vec<usize> = Vec::new();
    let mut k: usize = 0;
    while k < repos.len()
        invariant
            s == repos@,
            k <= s.len(),
            order@.len() == k,
            forall|i: int| 0 <= i < order@.len() ==> #[trigger] order@[i] < k,
            forall|m: usize| m < k ==> #[trigger] order@.contains(m),
            order@.no_duplicates(),
            forall|i: int, j: int|
                0 <= i < j < order@.len() ==> shown_before(s, #[trigger] order@[i] as int, #[trigger] order@[j] as int),
        decreases repos.len() - k,
    {
        let key: u64 = repos[k].stars;
        let mut p: usize = 0;
        while p < order.len() && repos[order[p]].stars >= key
            invariant
                s == repos@,
                p <= order@.len(),
                forall|i: int| 0 <= i < order@.len() ==> #[trigger] order@[i] < k,
                k < s.len(),
                key == s[k as int].stars,
                forall|i: int| 0 <= i < p ==> #[trigger] s[order@[i] as int].stars >= key,
            decreases order.len() - p,
        {
            p = p + 1;
        }
        let ghost before = order@;
        order.insert(p, k);
        proof {
            assert(order@ =~= before.subrange(0, p as int).push(k).add(before.subrange(p as int, before.len() as int)));
            assert forall|i: int| 0 <= i < order@.len() implies #[trigger] order@[i] < k + 1 by {
                if i < p {
                    assert(order@[i] == before[i]);
                } else if i > p {
                    assert(order@[i] == before[i - 1]);
                }
            }
            assert forall|m: usize| m < k + 1 implies #[trigger] order@.contains(m) by {
                if m == k {
                    assert(order@[p as int] == k);
                } else {
                    assert(before.contains(m));
                    let j = choose|j: int| 0 <= j < before.len() && before[j] == m;
                    if j < p {
                        assert(order@[j] == m);
                    } else {
                        assert(order@[j + 1] == m);
                    }
                }
            }
            assert forall|a: int, b: int| 0 <= a < b < order@.len() implies order@[a] != order@[b] by {
                if a < p && b < p {
                    assert(before[a] != before[b]);
                } else if a < p && b == p {
                    assert(before[a] < k);
                } else if a < p && b > p {
                    assert(before[a] != before[b - 1]);
                } else if a == p {
                    assert(before[b - 1] < k);
                } else {
                    assert(before[a - 1] != before[b - 1]);
                }
            }
            assert(order@.no_duplicates());
            assert forall|a: int, b: int|
                0 <= a < b < order@.len() implies shown_before(s, #[trigger] order@[a] as int, #[trigger] order@[b] as int) by {
                if a < p && b < p {
                    assert(shown_before(s, before[a] as int, before[b] as int));
                } else if a < p && b == p {
                    assert(s[before[a] as int].stars >= key);
                    assert(before[a] < k);
                } else if a < p && b > p {
                    assert(shown_before(s, before[a] as int, before[b - 1] as int));
                } else if a == p {
                    assert(before[b - 1] < k);
                    if p < before.len() {
                        assert(s[before[p as int] as int].stars < key);
                        if b - 1 > p {
                            assert(shown_before(s, before[p as int] as int, before[b - 1] as int));
                        }
                    }
                } else {
                    assert(shown_before(s, before[a - 1] as int, before[b - 1] as int));
                }
            }
        }
        k = k + 1;
    }
    order
}


/// The dashboard shows at most this many notifications.
pub const SHOWN_NOTIFICATIONS: usize = 50;

/// The pieces of a repository's card, around its address, name, description, stars, forks,
/// latest release and time of check.
pub const CARD_0: &'static str = "<div class=\"card\">\n  <div class=\"card-header\"><a href=\"";
pub const CARD_1: &'static str = "\" target=\"_blank\" rel=\"noopener\">";
pub const CARD_2: &'static str = "</a></div>\n  <p class=\"desc\">";
pub const CARD_3: &'static str = "</p>\n  <div class=\"stats\">\n    <div class=\"stat\"><span class=\"icon\">&#11088;</span><span class=\"val\">";
pub const CARD_4: &'static str = "</span><span class=\"lbl\">Stars</span></div>\n    <div class=\"stat\"><span class=\"icon\">&#129380;</span><span class=\"val\">";
pub const CARD_5: &'static str = "</span><span class=\"lbl\">Forks</span></div>\n    <div class=\"stat\"><span class=\"icon\">&#127991;</span><span class=\"val\">";
pub const CARD_6: &'static str = "</span><span class=\"lbl\">Release</span></div>\n  </div>\n  <div class=\"meta\">Dernière vérification : ";
pub const CARD_7: &'static str = "</div>\n</div>";

/// The pieces of a notification's line, around its badge class, icon, kind, repository,
/// message and time.
pub const NOTIF_0: &'static str = "<div class=\"notif\">\n  <span class=\"badge ";
pub const NOTIF_1: &'static str = "\">";
pub const NOTIF_2: &'static str = " ";
pub const NOTIF_3: &'static str = "</span>\n  <span class=\"notif-repo\">";
pub const NOTIF_4: &'static str = "</span>\n  <span class=\"notif-msg\">";
pub const NOTIF_5: &'static str = "</span>\n  <span class=\"notif-time\">";
pub const NOTIF_6: &'static str = "</span>\n</div>";

/// The pieces of the page, around the number of repositories, the cards, the notification
/// lines, the number of repositories again, the number of notifications and the time of the
/// page.
pub const PAGE_0: &'static str = "<!DOCTYPE html>\n<html lang=\"fr\">\n<head>\n<meta charset=\"UTF-8\">\n<meta name=\"viewport\" content=\"width=device-width, initial-scale=1.0\">\n<meta http-equiv=\"refresh\" content=\"60\">\n<title>GitHub Tracker</title>\n<style>\n  *{box-sizing:border-box;margin:0;padding:0}\n  body{font-family:-apple-system,BlinkMacSystemFont,'Segoe UI',Roboto,sans-serif;background:#0d1117;color:#c9d1d9;min-height:100vh}\n  header{background:#161b22;border-bottom:1px solid #30363d;padding:16px 24px;display:flex;align-items:center;justify-content:space-between;position:sticky;top:0;z-index:10}\n  .logo{display:flex;align-items:center;gap:10px}\n  header h1{font-size:1.3rem;color:#f0f6fc;font-weight:700}\n  .subtitle{color:#8b949e;font-size:0.8rem;margin-top:2px}\n  main{max-width:1280px;margin:0 auto;padding:24px 24px 80px}\n  h2{font-size:1rem;color:#f0f6fc;margin:24px 0 14px;padding-bottom:8px;border-bottom:1px solid #21262d;font-weight:600}\n  .repos-grid{display:grid;grid-template-columns:repeat(auto-fill,minmax(300px,1fr));gap:14px;margin-bottom:8px}\n  .card{background:#161b22;border:1px solid #30363d;border-radius:8px;padding:16px;transition:border-color .15s}\n  .card:hover{border-color:#388bfd}\n  .card-header a{color:#58a6ff;text-decoration:none;font-weight:600;font-size:.95rem;word-break:break-all}\n  .card-header a:hover{text-decoration:underline}\n  .desc{color:#8b949e;font-size:.8rem;margin:8px 0 10px;line-height:1.5;display:-webkit-box;-webkit-line-clamp:2;-webkit-box-orient:vertical;overflow:hidden}\n  .stats{display:flex;gap:8px;margin-bottom:10px}\n  .stat{display:flex;flex-direction:column;align-items:center;background:#0d1117;border-radius:6px;padding:8px 6px;flex:1;gap:2px}\n  .icon{font-size:1.1rem}\n  .val{font-weight:700;color:#f0f6fc;font-size:.95rem}\n  .lbl{color:#6e7681;font-size:.7rem}\n  .meta{color:#6e7681;font-size:.72rem}\n  .notifs-wrap{background:#161b22;border:1px solid #30363d;border-radius:8px;overflow:hidden}\n  .notif{display:grid;grid-template-columns:auto auto 1fr auto;gap:10px;align-items:center;padding:11px 16px;border-bottom:1px solid #21262d;font-size:.85rem}\n  .notif:last-child{border-bottom:none}\n  .badge{padding:3px 8px;border-radius:10px;font-size:.72rem;font-weight:600;white-space:nowrap}\n  .badge-release{background:#1f6feb;color:#fff}\n  .badge-stars{background:#9e6a03;color:#fff}\n  .badge-forks{background:#1a7f37;color:#fff}\n  .badge-error{background:#da3633;color:#fff}\n  .badge-info{background:#388bfd;color:#fff}\n  .notif-repo{font-weight:600;color:#58a6ff;white-space:nowrap}\n  .notif-msg{color:#c9d1d9}\n  .notif-time{color:#6e7681;font-size:.75rem;white-space:nowrap}\n  .empty{color:#8b949e;font-style:italic;padding:32px;text-align:center}\n  footer{background:#161b22;border-top:1px solid #30363d;padding:10px 24px;display:flex;gap:20px;font-size:.78rem;color:#6e7681;position:fixed;bottom:0;left:0;right:0}\n  footer span{color:#8b949e}\n  @media(max-width:600px){\n    .notif{grid-template-columns:1fr 1fr}\n    .notif-msg,.notif-time{grid-column:span 2}\n    .repos-grid{grid-template-columns:1fr}\n  }\n</style>\n</head>\n<body>\n<header>\n  <div class=\"logo\">\n    <div>\n      <h1>&#128269; GitHub Tracker</h1>\n      <div class=\"subtitle\">Surveillance de d&eacute;p&ocirc;ts GitHub &bull; Actualisation auto : 60s</div>\n    </div>\n  </div>\n</header>\n<main>\n  <h2>&#128230; D&eacute;p&ocirc;ts surveill&eacute;s (";
pub const PAGE_1: &'static str = ")</h2>\n  <div class=\"repos-grid\">";
pub const PAGE_2: &'static str = "</div>\n  <h2>&#128276; Notifications r&eacute;centes</h2>\n  <div class=\"notifs-wrap\">";
pub const PAGE_3: &'static str = "</div>\n</main>\n<footer>\n  <div>D&eacute;p&ocirc;ts : <span>";
pub const PAGE_4: &'static str = "</span></div>\n  <div>Notifications : <span>";
pub const PAGE_5: &'static str = "</span></div>\n  <div>G&eacute;n&eacute;r&eacute; : <span>";
pub const PAGE_6: &'static str = "</span></div>\n</footer>\n</body>\n</html>";

/// What stands in place of the cards when no repository has been checked yet.
pub const NO_REPOS: &'static str = "<p class=\"empty\">Aucun dépôt vérifié pour l'instant. En attente du premier passage...</p>";

/// What stands in place of the notification lines when there is none.
pub const NO_NOTIFICATIONS: &'static str = "<p class=\"empty\">Aucune notification pour l'instant.</p>";

/// The description shown where a repository has none.
pub const NO_DESCRIPTION: &'static str = "Aucune description";

/// The release shown where a repository has none.
pub const NO_RELEASE: &'static str = "—";

/// The text of an optional value, or `default`.
pub open spec fn text_or(value: Option<String>, default: Seq<char>) -> Seq<char> {
    match value {
        Some(v) => v@,
        None => default,
    }
}

/// The card of a repository.
pub open spec fn card_text(r: RepoState) -> Seq<char> {
    CARD_0@ + r.html_url@ + CARD_1@ + r.full_name@ + CARD_2@ + text_or(r.description, NO_DESCRIPTION@)
        + CARD_3@ + decimal_text(r.stars as nat) + CARD_4@ + decimal_text(r.forks as nat) + CARD_5@
        + text_or(r.latest_release, NO_RELEASE@) + CARD_6@ + timestamp_text(r.last_checked, minute_pattern())
        + CARD_7@
}

/// The cards of the states of `s` at the indices of `order`, in that order.
pub open spec fn cards_text(s: Seq<RepoState>, order: Seq<usize>) -> Seq<char>
    decreases order.len(),
{
    if order.len() == 0 {
        Seq::empty()
    } else {
        cards_text(s, order.drop_last()) + card_text(s[order.last() as int])
    }
}

/// The badge class of a kind of notification.
pub open spec fn badge_class(kind: NotificationKind) -> Seq<char> {
    match kind {
        NotificationKind::NewRelease => "badge-release"@,
        NotificationKind::StarChange => "badge-stars"@,
        NotificationKind::ForkChange => "badge-forks"@,
        NotificationKind::Error => "badge-error"@,
        NotificationKind::Info => "badge-info"@,
    }
}

/// The icon of a kind of notification.
pub open spec fn badge_icon(kind: NotificationKind) -> Seq<char> {
    match kind {
        NotificationKind::NewRelease => "&#128640;"@,
        NotificationKind::StarChange => "&#11088;"@,
        NotificationKind::ForkChange => "&#129380;"@,
        NotificationKind::Error => "&#10060;"@,
        NotificationKind::Info => "&#8505;"@,
    }
}

/// The line of a notification.
pub open spec fn notification_text(n: Notification) -> Seq<char> {
    NOTIF_0@ + badge_class(n.kind) + NOTIF_1@ + badge_icon(n.kind) + NOTIF_2@ + kind_label(n.kind)
        + NOTIF_3@ + n.repo@ + NOTIF_4@ + n.message@ + NOTIF_5@ + timestamp_text(n.timestamp, minute_pattern())
        + NOTIF_6@
}

/// The lines of the notifications of `ns`, in that order.
pub open spec fn notifications_text(ns: Seq<Notification>) -> Seq<char>
    decreases ns.len(),
{
    if ns.len() == 0 {
        Seq::empty()
    } else {
        notifications_text(ns.drop_last()) + notification_text(ns.last())
    }
}

/// The notifications that the dashboard shows of `ns` (oldest first): the
/// `SHOWN_NOTIFICATIONS` latest, newest first.
pub open spec fn shown_notifications(ns: Seq<Notification>) -> Seq<Notification> {
    let n: int = if ns.len() < SHOWN_NOTIFICATIONS { ns.len() as int } else { SHOWN_NOTIFICATIONS as int };
    Seq::new(n as nat, |i: int| ns[ns.len() - 1 - i])
}

/// The part of the page with the repositories.
pub open spec fn repos_section(s: Seq<RepoState>, order: Seq<usize>) -> Seq<char> {
    if s.len() == 0 {
        NO_REPOS@
    } else {
        cards_text(s, order)
    }
}

/// The part of the page with the notifications.
pub open spec fn notifications_section(ns: Seq<Notification>) -> Seq<char> {
    if ns.len() == 0 {
        NO_NOTIFICATIONS@
    } else {
        notifications_text(shown_notifications(ns))
    }
}

/// The dashboard page for the states `s` shown in `order`, the notifications `ns`, made at
/// `now`.
pub open spec fn dashboard_text(
    s: Seq<RepoState>,
    order: Seq<usize>,
    ns: Seq<Notification>,
    now: Timestamp,
) -> Seq<char> {
    PAGE_0@ + decimal_text(s.len()) + PAGE_1@ + repos_section(s, order) + PAGE_2@
        + notifications_section(ns) + PAGE_3@ + decimal_text(s.len()) + PAGE_4@ + decimal_text(ns.len())
        + PAGE_5@ + timestamp_text(now, second_pattern()) + PAGE_6@
}

/// The dashboard shows at most `SHOWN_NOTIFICATIONS` notifications, the newest first, each
/// newer than the next.
pub proof fn lemma_shown_notifications(ns: Seq<Notification>)
    ensures
        shown_notifications(ns).len() <= SHOWN_NOTIFICATIONS,
        shown_notifications(ns).len() <= ns.len(),
        ns.len() > 0 ==> shown_notifications(ns).len() > 0 && shown_notifications(ns)[0] == ns.last(),
        forall|i: int|
            0 <= i < shown_notifications(ns).len() ==> #[trigger] shown_notifications(ns)[i] == ns[ns.len() - 1 - i],
{
}

/// The dashboard shows exactly the 50 latest notifications, or all where there are fewer:
/// as many as `min(len, 50)`, newest first.
pub proof fn lemma_shown_notification_count(ns: Seq<Notification>)
    ensures
        shown_notifications(ns).len() == (if ns.len() < 50 { ns.len() } else { 50 }),
        forall|i: int|
            0 <= i < shown_notifications(ns).len() ==> #[trigger] shown_notifications(ns)[i] == ns[ns.len() - 1 - i],
{
}

/// The notification part of the page lists one line per shown notification, each line
/// after those of the newer ones: adding the line of the next older notification extends it.
pub proof fn lemma_notification_lines(ns: Seq<Notification>, x: Notification)
    ensures
        notifications_text(Seq::<Notification>::empty()) == Seq::<char>::empty(),
        notifications_text(ns.push(x)) == notifications_text(ns) + notification_text(x),
        ns.len() > 0 ==> notifications_section(ns) == notifications_text(shown_notifications(ns)),
{
    assert(ns.push(x).drop_last() =~= ns);
}

/// The repository part of the page holds one card per index of the order, whatever the
/// repository: listing one more repository adds exactly its card, and a list of one is its
/// card alone. Where some repository was recorded, the part is the cards of all of them.
pub proof fn lemma_one_card_per_repository(s: Seq<RepoState>, order: Seq<usize>, k: usize)
    ensures
        cards_text(s, Seq::<usize>::empty()) == Seq::<char>::empty(),
        cards_text(s, order.push(k)) == cards_text(s, order) + card_text(s[k as int]),
        cards_text(s, seq![k]) == card_text(s[k as int]),
        s.len() > 0 ==> repos_section(s, order) == cards_text(s, order),
{
    assert(order.push(k).drop_last() =~= order);
    assert(seq![k].drop_last() =~= Seq::<usize>::empty());
    assert(Seq::<char>::empty() + card_text(s[k as int]) =~= card_text(s[k as int]));
}

/// The cards of the first `j` indices of an order open the cards of the whole order.
pub proof fn lemma_cards_prefix(s: Seq<RepoState>, order: Seq<usize>, j: int)
    requires
        0 <= j <= order.len(),
    ensures
        cards_text(s, order.take(j)).len() <= cards_text(s, order).len(),
        cards_text(s, order).subrange(0, cards_text(s, order.take(j)).len() as int) == cards_text(
            s,
            order.take(j),
        ),
    decreases order.len(),
{
    if j == order.len() {
        assert(order.take(j) =~= order);
        assert(cards_text(s, order).subrange(0, cards_text(s, order).len() as int) =~= cards_text(s, order));
    } else {
        let p = order.drop_last();
        lemma_cards_prefix(s, p, j);
        assert(p.take(j) =~= order.take(j));
        let c = cards_text(s, p);
        let whole = cards_text(s, order);
        assert(whole == c + card_text(s[order.last() as int]));
        assert(whole.subrange(0, cards_text(s, order.take(j)).len() as int) =~= c.subrange(
            0,
            cards_text(s, order.take(j)).len() as int,
        ));
    }
}

/// The page holds a card for every recorded repository: for each index `i` of the order,
/// the card of `s[order[i]]` stands in the repository part right after the cards of the
/// indices before it.
pub proof fn lemma_every_card_shown(s: Seq<RepoState>, order: Seq<usize>, i: int)
    requires
        0 <= i < order.len(),
    ensures
        cards_text(s, order.take(i + 1)) == cards_text(s, order.take(i)) + card_text(s[order[i] as int]),
        cards_text(s, order).subrange(
            cards_text(s, order.take(i)).len() as int,
            (cards_text(s, order.take(i)).len() + card_text(s[order[i] as int]).len()) as int,
        ) == card_text(s[order[i] as int]),
{
    assert(order.take(i + 1).drop_last() =~= order.take(i));
    lemma_cards_prefix(s, order, i + 1);
    let before = cards_text(s, order.take(i));
    let card = card_text(s[order[i] as int]);
    let whole = cards_text(s, order);
    assert(whole.subrange(0, (before.len() + card.len()) as int) == before + card);
    assert(whole.subrange(before.len() as int, (before.len() + card.len()) as int) =~= (before + card).subrange(
        before.len() as int,
        (before.len() + card.len()) as int,
    ));
    assert((before + card).subrange(before.len() as int, (before.len() + card.len()) as int) =~= card);
}

fn text_or_default(value: &Option<String>, default: &str) -> (t: String)
    ensures
        t@ == text_or(*value, default@),
{
    match value {
        Some(v) => v.clone(),
        None => String::from_str(default),
    }
}

/// The card of a repository.
pub fn card_string(r: &RepoState) -> (t: String)
    ensures
        t@ == card_text(*r),
{
    let mut t = String::from_str(CARD_0);
    t.append(r.html_url.as_str());
    t.append(CARD_1);
    t.append(r.full_name.as_str());
    t.append(CARD_2);
    t.append(text_or_default(&r.description, NO_DESCRIPTION).as_str());
    t.append(CARD_3);
    t.append(decimal_string(r.stars).as_str());
    t.append(CARD_4);
    t.append(decimal_string(r.forks).as_str());
    t.append(CARD_5);
    t.append(text_or_default(&r.latest_release, NO_RELEASE).as_str());
    t.append(CARD_6);
    t.append(minute_string(r.last_checked).as_str());
    t.append(CARD_7);
    t
}

fn badge(kind: NotificationKind) -> (r: (&'static str, &'static str))
    ensures
        r.0@ == badge_class(kind),
        r.1@ == badge_icon(kind),
{
    match kind {
        NotificationKind::NewRelease => ("badge-release", "&#128640;"),
        NotificationKind::StarChange => ("badge-stars", "&#11088;"),
        NotificationKind::ForkChange => ("badge-forks", "&#129380;"),
        NotificationKind::Error => ("badge-error", "&#10060;"),
        NotificationKind::Info => ("badge-info", "&#8505;"),
    }
}

/// The line of a notification.
pub fn notification_string(n: &Notification) -> (t: String)
    ensures
        t@ == notification_text(*n),
{
    let (class, icon) = badge(n.kind);
    let mut t = String::from_str(NOTIF_0);
    t.append(class);
    t.append(NOTIF_1);
    t.append(icon);
    t.append(NOTIF_2);
    t.append(n.kind.to_string().as_str());
    t.append(NOTIF_3);
    t.append(n.repo.as_str());
    t.append(NOTIF_4);
    t.append(n.message.as_str());
    t.append(NOTIF_5);
    t.append(minute_string(n.timestamp).as_str());
    t.append(NOTIF_6);
    t
}

fn repos_section_string(repos: &Vec<RepoState>) -> (t: String)
    ensures
        exists|order: Seq<usize>| is_star_order(repos@, order) && t@ == repos_section(repos@, order),
{
    let order = star_order(repos);
    if repos.len() == 0 {
        return String::from_str(NO_REPOS);
    }
    let mut t = String::new();
    let mut i: usize = 0;
    while i < order.len()
        invariant
            is_star_order(repos@, order@),
            i <= order@.len(),
            t@ == cards_text(repos@, order@.take(i as int)),
        decreases order.len() - i,
    {
        let card = card_string(&repos[order[i]]);
        t.append(card.as_str());
        proof {
            assert(order@.take(i + 1).drop_last() =~= order@.take(i as int));
        }
        i = i + 1;
    }
    assert(order@.take(order@.len() as int) =~= order@);
    t
}

fn notifications_section_string(ns: &Vec<Notification>) -> (t: String)
    ensures
        t@ == notifications_section(ns@),
{
    if ns.len() == 0 {
        return String::from_str(NO_NOTIFICATIONS);
    }
    let ghost shown = shown_notifications(ns@);
    let count: usize = if ns.len() < SHOWN_NOTIFICATIONS { ns.len() } else { SHOWN_NOTIFICATIONS };
    let mut t = String::new();
    let mut i: usize = 0;
    while i < count
        invariant
            shown == shown_notifications(ns@),
            count == shown.len(),
            count <= ns@.len(),
            i <= count,
            t@ == notifications_text(shown.take(i as int)),
        decreases count - i,
    {
        let line = notification_string(&ns[ns.len() - 1 - i]);
        t.append(line.as_str());
        proof {
            assert(shown.take(i + 1).drop_last() =~= shown.take(i as int));
        }
        i = i + 1;
    }
    assert(shown.take(count as int) =~= shown);
    t
}

/// The dashboard page for `state`, made at `now`: the repositories' cards, most stars first
/// (for equal stars, the one recorded first), then the `SHOWN_NOTIFICATIONS` latest
/// notifications, newest first.
pub fn dashboard(state: &AppState, now: Timestamp) -> (page: String)
    ensures
        exists|order: Seq<usize>|
            is_star_order(state.repo_list(), order) && page@ == dashboard_text(
                state.repo_list(),
                order,
                state.notification_list(),
                now,
            ),
{
    let repos = state.repos();
    let ns = state.notifications();
    let repos_html = repos_section_string(repos);
    let notifs_html = notifications_section_string(ns);
    let repo_count = decimal_string(repos.len() as u64);
    let mut page = String::from_str(PAGE_0);
    page.append(repo_count.as_str());
    page.append(PAGE_1);
    page.append(repos_html.as_str());
    page.append(PAGE_2);
    page.append(notifs_html.as_str());
    page.append(PAGE_3);
    page.append(repo_count.as_str());
    page.append(PAGE_4);
    page.append(decimal_string(ns.len() as u64).as_str());
    page.append(PAGE_5);
    page.append(second_string(now).as_str());
    page.append(PAGE_6);
    page
}

} // verus!
