use vstd::prelude::*;

use std::collections::VecDeque;

use crate::domain::alert::{alert_views, Alert, AlertView};
use crate::domain::time::Timestamp;

verus! {

/// The most recent alerts, oldest first, at most `capacity` of them after
/// each insertion.
pub struct AlertBuffer {
    alerts: VecDeque<Alert>,
    capacity: usize,
}

/// The last `capacity` alerts of `s` (all of them when there are fewer).
pub open spec fn keep_newest(s: Seq<AlertView>, capacity: nat) -> Seq<AlertView> {
    if s.len() > capacity {
        s.subrange(s.len() - capacity, s.len() as int)
    } else {
        s
    }
}

/// `a`, marked resolved at `now` if it is an unresolved alert of `server_id`.
pub open spec fn resolved_if_open(a: AlertView, server_id: Seq<char>, now: Timestamp) -> AlertView {
    if a.server_id == server_id && a.resolved_at is None {
        AlertView { resolved_at: Some(now), ..a }
    } else {
        a
    }
}

/// Every unresolved alert of `server_id` in `s`, resolved at `now`.
pub open spec fn resolve_server_spec(s: Seq<AlertView>, server_id: Seq<char>, now: Timestamp) -> Seq<
    AlertView,
> {
    Seq::new(s.len(), |i: int| resolved_if_open(s[i], server_id, now))
}

/// The alerts of `s` that match the filter: all of them without a server id,
/// those of that server otherwise; in their order.
pub open spec fn filter_server(s: Seq<AlertView>, server_id: Option<Seq<char>>) -> Seq<AlertView>
    decreases s.len(),
{
    if s.len() == 0 {
        Seq::empty()
    } else {
        let rest = filter_server(s.drop_last(), server_id);
        match server_id {
            Some(id) => if s.last().server_id == id {
                rest.push(s.last())
            } else {
                rest
            },
            None => rest.push(s.last()),
        }
    }
}

impl AlertBuffer {
    /// The alerts held, oldest first.
    pub closed spec fn contents(&self) -> Seq<AlertView> {
        alert_views(self.alerts@)
    }

    /// The most alerts kept after an insertion.
    pub closed spec fn capacity_spec(&self) -> nat {
        self.capacity as nat
    }

    /// An empty buffer keeping at most `capacity` alerts.
    pub fn new(capacity: usize) -> (r: Self)
        ensures
            r.contents() == Seq::<AlertView>::empty(),
            r.capacity_spec() == capacity,
    {
        let r = AlertBuffer { alerts: VecDeque::new(), capacity };
        assert(r.contents() =~= Seq::<AlertView>::empty());
        r
    }

    /// A buffer holding alerts loaded newest first (as the store returns
    /// them), put back in oldest-first order.
    pub fn from_newest_first(loaded: Vec<Alert>, capacity: usize) -> (r: Self)
        ensures
            r.contents() == alert_views(loaded@).reverse(),
            r.capacity_spec() == capacity,
    {
        let mut loaded = loaded;
        let ghost original = alert_views(loaded@);
        let mut alerts: VecDeque<Alert> = VecDeque::new();
        while loaded.len() > 0
            invariant
                alert_views(alerts@) + alert_views(loaded@).reverse() == original.reverse(),
            decreases loaded.len(),
        {
            let ghost before_alerts = alerts@;
            let ghost before_loaded = loaded@;
            let a = loaded.pop().unwrap();
            assert(before_loaded =~= loaded@.push(a));
            alerts.push_back(a);
            assert(alert_views(alerts@) =~= alert_views(before_alerts).push(a@));
            assert(alert_views(before_loaded).reverse() =~= seq![a@] + alert_views(
                loaded@,
            ).reverse());
            assert(alert_views(alerts@) + alert_views(loaded@).reverse() =~= alert_views(
                before_alerts,
            ) + alert_views(before_loaded).reverse());
        }
        assert(alert_views(loaded@).reverse() =~= Seq::<AlertView>::empty());
        assert(alert_views(alerts@) =~= original.reverse());
        AlertBuffer { alerts, capacity }
    }

    /// How many alerts are held.
    pub fn len(&self) -> (r: usize)
        ensures
            r == self.contents().len(),
    {
        self.alerts.len()
    }

    /// Appends `alert` as the newest, then drops the oldest alerts until at
    /// most `capacity` remain.
    pub fn push(&mut self, alert: Alert)
        ensures
            final(self).contents() == keep_newest(
                old(self).contents().push(alert@),
                old(self).capacity_spec(),
            ),
            final(self).capacity_spec() == old(self).capacity_spec(),
    {
        let ghost all = self.contents().push(alert@);
        self.alerts.push_back(alert);
        assert(self.contents() =~= all);
        while self.alerts.len() > self.capacity
            invariant
                self.capacity == old(self).capacity,
                all.len() >= self.contents().len(),
                self.contents() == all.subrange(
                    all.len() - self.contents().len(),
                    all.len() as int,
                ),
                self.contents().len() >= self.capacity || self.contents().len() == all.len(),
            decreases self.alerts.len(),
        {
            let ghost before = self.alerts@;
            let ghost bv = self.contents();
            let _ = self.alerts.pop_front();
            assert(self.alerts@ =~= before.drop_first());
            assert(self.contents() =~= bv.drop_first());
            assert(self.contents() =~= all.subrange(
                all.len() - self.contents().len(),
                all.len() as int,
            ));
        }
        assert(self.contents() =~= keep_newest(all, self.capacity as nat));
    }

    /// Marks every unresolved alert of `server_id` as resolved at `now`.
    pub fn resolve_server(&mut self, server_id: &str, now: Timestamp)
        ensures
            final(self).contents() == resolve_server_spec(old(self).contents(), server_id@, now),
            final(self).capacity_spec() == old(self).capacity_spec(),
    {
        let ghost start = self.contents();
        let target = server_id.to_owned();
        let n = self.alerts.len();
        let mut i: usize = 0;
        assert(self.contents() =~= start.subrange(0, n as int) + resolve_server_spec(
            start.subrange(0, 0),
            server_id@,
            now,
        ));
        while i < n
            invariant
                self.capacity == old(self).capacity,
                start == old(self).contents(),
                target@ == server_id@,
                n == start.len(),
                i <= n,
                self.contents() == start.subrange(i as int, n as int) + resolve_server_spec(
                    start.subrange(0, i as int),
                    server_id@,
                    now,
                ),
            decreases n - i,
        {
            let ghost bv = self.contents();
            let ghost before = self.alerts@;
            assert(bv.len() == n);
            assert(before.len() == bv.len());
            let mut a = self.alerts.pop_front().unwrap();
            assert(a@ == start[i as int]) by {
                assert(bv[0] == start.subrange(i as int, n as int)[0]);
                assert(bv[0] == before[0]@);
            }
            if a.server_id == target && a.resolved_at.is_none() {
                a.resolved_at = Some(now);
            }
            assert(a@ == resolved_if_open(start[i as int], server_id@, now));
            self.alerts.push_back(a);
            assert(self.alerts@ =~= before.drop_first().push(a));
            assert(self.contents() =~= bv.drop_first().push(a@));
            assert(self.contents() =~= start.subrange(i + 1, n as int) + resolve_server_spec(
                start.subrange(0, i + 1),
                server_id@,
                now,
            ));
            i = i + 1;
        }
        assert(start.subrange(0, n as int) =~= start);
        assert(self.contents() =~= resolve_server_spec(start, server_id@, now));
    }

    /// Copies of the alerts of `server_id` (of every server when `None`),
    /// oldest first.
    pub fn for_server(&self, server_id: Option<&str>) -> (r: Vec<Alert>)
        ensures
            alert_views(r@) == filter_server(
                self.contents(),
                match server_id {
                    Some(id) => Some(id@),
                    None => None,
                },
            ),
            forall|i: int|
                #![trigger r@[i]]
                0 <= i < r@.len() ==> (server_id matches Some(id) ==> r@[i].server_id@ == id@),
            server_id matches Some(id) ==> alert_views(r@) == self.contents().filter(
                of_server(id@),
            ),
            server_id is None ==> alert_views(r@) == self.contents(),
    {
        let ghost filter = match server_id {
            Some(id) => Some(id@),
            None => None,
        };
        let target: Option<String> = match server_id {
            Some(id) => Some(id.to_owned()),
            None => None,
        };
        let mut out: Vec<Alert> = Vec::new();
        let n = self.alerts.len();
        let mut i: usize = 0;
        while i < n
            invariant
                n == self.contents().len(),
                i <= n,
                alert_views(out@) == filter_server(self.contents().subrange(0, i as int), filter),
                match target {
                    Some(t) => filter == Some(t@),
                    None => filter is None,
                },
            decreases n - i,
        {
            let a = &self.alerts[i];
            let keep = match &target {
                Some(id) => a.server_id == *id,
                None => true,
            };
            let ghost prefix = self.contents().subrange(0, i as int);
            let ghost sub = self.contents().subrange(0, i + 1);
            assert(sub.drop_last() =~= prefix);
            assert(sub.last() == a@);
            assert(keep == match filter {
                Some(x) => a@.server_id == x,
                None => true,
            });
            assert(filter_server(self.contents().subrange(0, i + 1), filter) == if keep {
                filter_server(prefix, filter).push(a@)
            } else {
                filter_server(prefix, filter)
            });
            if keep {
                let ghost before = out@;
                out.push(a.duplicate());
                assert(alert_views(out@) =~= alert_views(before).push(a@));
            }
            i = i + 1;
        }
        assert(self.contents().subrange(0, n as int) =~= self.contents());
        proof {
            lemma_filter_none_keeps_all(self.contents());
            if let Some(id) = server_id {
                lemma_filter_is_exact_server_match(self.contents(), id@);
                assert forall|i: int| 0 <= i < out@.len() implies out@[i].server_id@ == id@ by {
                    assert(alert_views(out@)[i] == out@[i]@);
                }
            }
        }
        out
    }
}

/// After any insertion the buffer holds at most `capacity` alerts, and the
/// alert just inserted is the newest one held (when `capacity` is not 0).
pub proof fn lemma_push_bounded(s: Seq<AlertView>, a: AlertView, capacity: nat)
    ensures
        keep_newest(s.push(a), capacity).len() <= capacity || s.len() + 1 <= capacity,
        keep_newest(s.push(a), capacity).len() <= if s.len() + 1 <= capacity {
            s.len() + 1
        } else {
            capacity
        },
        capacity > 0 ==> keep_newest(s.push(a), capacity).last() == a,
{
}

/// The alerts of one server, as a filter: those whose server id is exactly
/// `server_id`.
pub open spec fn of_server(server_id: Seq<char>) -> spec_fn(AlertView) -> bool {
    |a: AlertView| a.server_id == server_id
}

/// Listing law: the alerts listed for a server are exactly the buffered
/// alerts whose server id equals it (no other server's, even one whose id
/// starts the same way), every one of them, in buffer order.
pub proof fn lemma_filter_is_exact_server_match(s: Seq<AlertView>, server_id: Seq<char>)
    ensures
        filter_server(s, Some(server_id)) == s.filter(of_server(server_id)),
        forall|i: int|
            0 <= i < filter_server(s, Some(server_id)).len() ==> (#[trigger] filter_server(
                s,
                Some(server_id),
            )[i]).server_id == server_id,
        forall|a: AlertView|
            s.contains(a) && a.server_id == server_id ==> #[trigger] filter_server(
                s,
                Some(server_id),
            ).contains(a),
    decreases s.len(),
{
    reveal(Seq::filter);
    if s.len() > 0 {
        lemma_filter_is_exact_server_match(s.drop_last(), server_id);
    }
    assert(filter_server(s, Some(server_id)) == s.filter(of_server(server_id)));
    s.filter_lemma(of_server(server_id));
    assert forall|a: AlertView|
        s.contains(a) && a.server_id == server_id implies #[trigger] filter_server(
        s,
        Some(server_id),
    ).contains(a) by {
        assert(of_server(server_id)(a));
    }
}

/// Without a server to restrict it to, the listing holds every alert, in
/// order.
pub proof fn lemma_filter_none_keeps_all(s: Seq<AlertView>)
    ensures
        filter_server(s, None) == s,
    decreases s.len(),
{
    if s.len() > 0 {
        lemma_filter_none_keeps_all(s.drop_last());
        assert(s.drop_last().push(s.last()) =~= s);
    }
}

/// Resolving a server's alerts twice is resolving them once: the second pass
/// finds nothing open and keeps the first resolution time.
pub proof fn lemma_resolve_idempotent(
    s: Seq<AlertView>,
    server_id: Seq<char>,
    first: Timestamp,
    second: Timestamp,
)
    ensures
        resolve_server_spec(resolve_server_spec(s, server_id, first), server_id, second)
            == resolve_server_spec(s, server_id, first),
{
    assert(resolve_server_spec(resolve_server_spec(s, server_id, first), server_id, second)
        =~= resolve_server_spec(s, server_id, first));
}

/// Resolving one server's alerts keeps the number and order of alerts and
/// leaves every other server's alerts as they were.
pub proof fn lemma_resolve_touches_only_server(s: Seq<AlertView>, server_id: Seq<char>, now: Timestamp)
    ensures
        resolve_server_spec(s, server_id, now).len() == s.len(),
        forall|i: int|
            0 <= i < s.len() ==> {
                let r = #[trigger] resolve_server_spec(s, server_id, now)[i];
                &&& r.id == s[i].id
                &&& r.server_id == s[i].server_id
                &&& r.metric == s[i].metric
                &&& r.timestamp == s[i].timestamp
                &&& (s[i].server_id != server_id ==> r == s[i])
                &&& (s[i].server_id == server_id ==> r.resolved_at is Some)
            },
{
}

} // verus!
