//! Session tracking across polls.
//!
//! Each player identity seen in a poll gets a session record holding its
//! first-seen and last-seen instants.  Records live for the process
//! lifetime; one is dropped only when its identity is absent from the
//! latest poll and its last-seen age exceeds the inactivity threshold.

use vstd::prelude::*;

use crate::coerce::Player;
use crate::strutil::{clamped_diff, spec_clamped_diff, str_eq};

verus! {

/// Seconds of absence after which an idle session record may be dropped
/// (120 minutes).
pub const INACTIVITY_THRESHOLD_SECS: i64 = 7200;

/// First-seen and last-seen instants of one identity, in whole seconds
/// since the Unix epoch.
#[derive(Clone, Copy, Debug, PartialEq, Eq, Structural)]
pub struct SessionRecord {
    pub first_seen: i64,
    pub last_seen: i64,
}

/// The per-identity session store.
#[derive(Debug)]
pub struct PlayerTracker {
    entries: Vec<(String, SessionRecord)>,
}

/// Whether a list of identity strings contains `id`.
pub open spec fn has_id(ids: Seq<String>, id: Seq<char>) -> bool {
    exists|i: int| 0 <= i < ids.len() && ids[i]@ == id
}

/// Whether a poll's player list contains the identity `id`.
pub open spec fn has_player_id(players: Seq<Player>, id: Seq<char>) -> bool {
    exists|i: int| 0 <= i < players.len() && players[i].id@ == id
}

impl PlayerTracker {
    /// Each identity has at most one record.
    pub closed spec fn wf(self) -> bool {
        forall|i: int, j: int|
            0 <= i < j < self.entries@.len() ==> self.entries@[i].0@ != self.entries@[j].0@
    }

    /// The session map: identity view to record.
    pub closed spec fn contains_id(self, id: Seq<char>) -> bool {
        exists|i: int| 0 <= i < self.entries@.len() && self.entries@[i].0@ == id
    }

    /// The record held for an identity.
    pub closed spec fn record_of(self, id: Seq<char>) -> SessionRecord {
        self.entries@[choose|i: int| 0 <= i < self.entries@.len() && self.entries@[i].0@ == id].1
    }

    /// An empty store.
    pub fn new() -> (t: Self)
        ensures
            t.wf(),
            forall|id: Seq<char>| !t.contains_id(id),
    {
        PlayerTracker { entries: Vec::new() }
    }

    /// How many identities are tracked.
    pub fn len(&self) -> (n: usize)
        ensures
            n == self.spec_len(),
    {
        self.entries.len()
    }

    /// The number of tracked identities.
    pub closed spec fn spec_len(self) -> nat {
        self.entries@.len()
    }

    fn find(&self, id: &str) -> (r: Option<usize>)
        requires
            self.wf(),
        ensures
            match r {
                Some(i) => i < self.entries@.len() && self.entries@[i as int].0@ == id@,
                None => !self.contains_id(id@),
            },
    {
        let n = self.entries.len();
        let mut i: usize = 0;
        while i < n
            invariant
                i <= n,
                n == self.entries@.len(),
                forall|j: int| 0 <= j < i ==> self.entries@[j].0@ != id@,
            decreases n - i,
        {
            if str_eq(self.entries[i].0.as_str(), id) {
                return Some(i);
            }
            i += 1;
        }
        None
    }

    /// Records one identity at instant `now`: a new identity starts a
    /// session with both instants at `now`; a known one keeps its
    /// first-seen and moves its last-seen to `now`.
    pub fn observe(&mut self, id: &str, now: i64)
        requires
            old(self).wf(),
        ensures
            final(self).wf(),
            final(self).contains_id(id@),
            final(self).record_of(id@) == (if old(self).contains_id(id@) {
                SessionRecord { first_seen: old(self).record_of(id@).first_seen, last_seen: now }
            } else {
                SessionRecord { first_seen: now, last_seen: now }
            }),
            forall|o: Seq<char>|
                o != id@ ==> (final(self).contains_id(o) == old(self).contains_id(o) && (old(
                    self,
                ).contains_id(o) ==> final(self).record_of(o) == old(self).record_of(o))),
    {
        let ghost pre = *self;
        match self.find(id) {
            Some(i) => {
                let first = self.entries[i].1.first_seen;
                let key = self.entries[i].0.clone();
                self.entries.set(i, (key, SessionRecord { first_seen: first, last_seen: now }));
                proof {
                    assert(self.entries@[i as int].0@ == id@);
                    assert forall|o: Seq<char>| o != id@ implies (self.contains_id(o)
                        == pre.contains_id(o) && (pre.contains_id(o) ==> self.record_of(o)
                        == pre.record_of(o))) by {
                        assert(forall|j: int|
                            0 <= j < self.entries@.len() && j != i ==> self.entries@[j]
                                == pre.entries@[j]);
                        if pre.contains_id(o) {
                            let j = choose|j: int|
                                0 <= j < pre.entries@.len() && pre.entries@[j].0@ == o;
                            assert(j != i);
                            assert(self.entries@[j].0@ == o);
                        }
                        if self.contains_id(o) {
                            let j = choose|j: int|
                                0 <= j < self.entries@.len() && self.entries@[j].0@ == o;
                            assert(j != i);
                            assert(pre.entries@[j].0@ == o);
                        }
                    }
                    let i0 = choose|j: int|
                        0 <= j < self.entries@.len() && self.entries@[j].0@ == id@;
                    assert(i0 == i);
                }
            },
            None => {
                let key = id.to_owned();
                self.entries.push(
                    (key, SessionRecord { first_seen: now, last_seen: now }),
                );
                proof {
                    let n = pre.entries@.len() as int;
                    assert(self.entries@.drop_last() =~= pre.entries@);
                    assert(self.entries@[n].0@ == id@);
                    assert forall|o: Seq<char>| o != id@ implies (self.contains_id(o)
                        == pre.contains_id(o) && (pre.contains_id(o) ==> self.record_of(o)
                        == pre.record_of(o))) by {
                        assert(forall|j: int| 0 <= j < n ==> self.entries@[j] == pre.entries@[j]);
                        if self.contains_id(o) {
                            let j = choose|j: int|
                                0 <= j < self.entries@.len() && self.entries@[j].0@ == o;
                            assert(j != n);
                        }
                    }
                    let i0 = choose|j: int|
                        0 <= j < self.entries@.len() && self.entries@[j].0@ == id@;
                    assert(self.entries@[i0].0@ == id@);
                    assert(i0 == n);
                }
            },
        }
    }

    /// Records every player of a poll at instant `now`.
    pub fn update_with(&mut self, players: &Vec<Player>, now: i64)
        requires
            old(self).wf(),
        ensures
            final(self).wf(),
            forall|k: int|
                0 <= k < players@.len() ==> final(self).contains_id(#[trigger] players@[k].id@),
            forall|o: Seq<char>|
                !has_player_id(players@, o) ==> (final(self).contains_id(o) == old(
                    self,
                ).contains_id(o) && (old(self).contains_id(o) ==> final(self).record_of(o) == old(
                    self,
                ).record_of(o))),
    {
        let n = players.len();
        let mut i: usize = 0;
        while i < n
            invariant
                i <= n,
                n == players@.len(),
                self.wf(),
                forall|k: int|
                    0 <= k < i ==> self.contains_id(#[trigger] players@[k].id@),
                forall|o: Seq<char>|
                    !has_player_id(players@, o) ==> (self.contains_id(o) == old(
                        self,
                    ).contains_id(o) && (old(self).contains_id(o) ==> self.record_of(o) == old(
                        self,
                    ).record_of(o))),
            decreases n - i,
        {
            self.observe(players[i].id.as_str(), now);
            i += 1;
        }
    }

    /// Reads the clock and records every player of a poll at that
    /// instant, which is returned.
    pub fn update_with_now(&mut self, players: &Vec<Player>) -> (now: i64)
        requires
            old(self).wf(),
        ensures
            final(self).wf(),
            forall|k: int|
                0 <= k < players@.len() ==> final(self).contains_id(#[trigger] players@[k].id@),
            forall|o: Seq<char>|
                !has_player_id(players@, o) ==> (final(self).contains_id(o) == old(
                    self,
                ).contains_id(o) && (old(self).contains_id(o) ==> final(self).record_of(o) == old(
                    self,
                ).record_of(o))),
    {
        let now = crate::clock::now_unix_seconds();
        self.update_with(players, now);
        now
    }

    /// How long an identity has been connected as of `now`: the clamped
    /// difference from its first-seen instant; absent identities yield
    /// nothing.
    pub fn connected_for(&self, id: &str, now: i64) -> (r: Option<i64>)
        requires
            self.wf(),
        ensures
            r is Some <==> self.contains_id(id@),
            self.contains_id(id@) ==> r == Some(
                spec_clamped_diff(now, self.record_of(id@).first_seen),
            ),
    {
        match self.find(id) {
            Some(i) => {
                proof {
                    let i0 = choose|j: int|
                        0 <= j < self.entries@.len() && self.entries@[j].0@ == id@;
                    assert(i0 == i);
                }
                Some(clamped_diff(now, self.entries[i].1.first_seen))
            },
            None => None,
        }
    }

    /// Reads the clock and reports how long an identity has been
    /// connected as of that instant, which is returned beside it.
    pub fn connected_for_now(&self, id: &str) -> (r: (i64, Option<i64>))
        requires
            self.wf(),
        ensures
            r.1 is Some <==> self.contains_id(id@),
            self.contains_id(id@) ==> r.1 == Some(
                spec_clamped_diff(r.0, self.record_of(id@).first_seen),
            ),
    {
        let now = crate::clock::now_unix_seconds();
        (now, self.connected_for(id, now))
    }

    /// Every tracked identity with its connected duration as of `now`,
    /// in store order.
    pub fn durations(&self, now: i64) -> (r: Vec<(String, i64)>)
        requires
            self.wf(),
        ensures
            r@.len() == self.spec_len(),
            forall|i: int|
                0 <= i < r@.len() ==> self.contains_id(#[trigger] r@[i].0@) && r@[i].1
                    == spec_clamped_diff(now, self.record_of(r@[i].0@).first_seen),
            forall|i: int, j: int| 0 <= i < j < r@.len() ==> r@[i].0@ != r@[j].0@,
    {
        let n = self.entries.len();
        let mut out: Vec<(String, i64)> = Vec::new();
        let mut i: usize = 0;
        while i < n
            invariant
                i <= n,
                n == self.entries@.len(),
                self.wf(),
                out@.len() == i,
                forall|j: int|
                    0 <= j < i ==> self.contains_id(#[trigger] out@[j].0@) && out@[j].1
                        == spec_clamped_diff(now, self.record_of(out@[j].0@).first_seen),
                forall|j: int| 0 <= j < i ==> (#[trigger] out@[j].0)@ == self.entries@[j].0@,
                forall|j: int, k: int| 0 <= j < k < i ==> out@[j].0@ != out@[k].0@,
            decreases n - i,
        {
            let key = self.entries[i].0.clone();
            let d = clamped_diff(now, self.entries[i].1.first_seen);
            proof {
                assert(self.entries@[i as int].0@ == key@);
                let i0 = choose|j: int| 0 <= j < self.entries@.len() && self.entries@[j].0@ == key@;
                assert(self.entries@[i0].0@ == key@);
                assert(i0 == i);
            }
            out.push((key, d));
            i += 1;
        }
        out
    }

    /// Drops every record whose identity is absent from the latest poll
    /// and whose last-seen age as of `now` exceeds the inactivity
    /// threshold; everything else is kept unchanged.
    pub fn prune_inactive(&mut self, current_ids: &Vec<String>, now: i64)
        requires
            old(self).wf(),
        ensures
            final(self).wf(),
            forall|o: Seq<char>|
                final(self).contains_id(o) <==> (old(self).contains_id(o) && !(!has_id(
                    current_ids@,
                    o,
                ) && spec_clamped_diff(now, old(self).record_of(o).last_seen)
                    > INACTIVITY_THRESHOLD_SECS)),
            forall|o: Seq<char>|
                final(self).contains_id(o) ==> final(self).record_of(o) == old(self).record_of(o),
    {
        let ghost pre = *self;
        let n = self.entries.len();
        let mut kept: Vec<(String, SessionRecord)> = Vec::new();
        let mut i: usize = 0;
        while i < n
            invariant
                i <= n,
                n == pre.entries@.len(),
                *self == pre,
                pre.wf(),
                forall|j: int, k: int|
                    0 <= j < k < kept@.len() ==> kept@[j].0@ != kept@[k].0@,
                forall|j: int|
                    0 <= j < kept@.len() ==> exists|k: int|
                        0 <= k < i && entry_matches(pre.entries@[k], #[trigger] kept@[j]),
                forall|k: int|
                    0 <= k < i ==> (kept_has(kept@, #[trigger] pre.entries@[k]) <==> !(
                    !has_id(current_ids@, pre.entries@[k].0@)
                        && spec_clamped_diff(now, pre.entries@[k].1.last_seen)
                        > INACTIVITY_THRESHOLD_SECS)),
            decreases n - i,
        {
            let ghost kept0 = kept@;
            let absent = !contains_string(current_ids, self.entries[i].0.as_str());
            let age = clamped_diff(now, self.entries[i].1.last_seen);
            let drop_it = absent && age > INACTIVITY_THRESHOLD_SECS;
            if !drop_it {
                let key = self.entries[i].0.clone();
                let rec = self.entries[i].1;
                proof {
                    assert(pre.entries@[i as int].0@ == key@);
                    assert forall|j: int| 0 <= j < kept0.len() implies kept0[j].0@ != key@ by {
                        let k = choose|k: int|
                            0 <= k < i && entry_matches(pre.entries@[k], kept0[j]);
                        assert(pre.entries@[k].0@ != pre.entries@[i as int].0@);
                    }
                }
                kept.push((key, rec));
                proof {
                    assert(entry_matches(pre.entries@[i as int], kept@.last()));
                    assert(kept_has(kept@, pre.entries@[i as int]));
                    assert forall|k: int|
                        0 <= k < i implies (kept_has(kept@, #[trigger] pre.entries@[k])
                        == kept_has(kept0, pre.entries@[k])) by {
                        assert(pre.entries@[k].0@ != key@);
                        if kept_has(kept@, pre.entries@[k]) {
                            let j = choose|j: int|
                                0 <= j < kept@.len() && entry_matches(
                                    kept@[j],
                                    pre.entries@[k],
                                );
                            assert(j < kept0.len());
                            assert(kept_has(kept0, pre.entries@[k]));
                        }
                        if kept_has(kept0, pre.entries@[k]) {
                            let j = choose|j: int|
                                0 <= j < kept0.len() && entry_matches(
                                    kept0[j],
                                    pre.entries@[k],
                                );
                            assert(entry_matches(kept@[j], pre.entries@[k]));
                        }
                    }
                }
            } else {
                proof {
                    assert forall|j: int|
                        0 <= j < kept@.len() implies !entry_matches(
                        kept@[j],
                        pre.entries@[i as int],
                    ) by {
                        let k = choose|k: int|
                            0 <= k < i && entry_matches(pre.entries@[k], kept@[j]);
                        assert(pre.entries@[k].0@ != pre.entries@[i as int].0@);
                    }
                    assert(!kept_has(kept@, pre.entries@[i as int]));
                }
            }
            i += 1;
        }
        self.entries = kept;
        proof {
            assert forall|o: Seq<char>| #[trigger] self.contains_id(o) implies (pre.contains_id(o)
                && self.record_of(o) == pre.record_of(o) && !(!has_id(
                current_ids@,
                o,
            ) && spec_clamped_diff(now, pre.record_of(o).last_seen)
                > INACTIVITY_THRESHOLD_SECS)) by {
                let j = choose|j: int| 0 <= j < self.entries@.len() && self.entries@[j].0@ == o;
                let k = choose|k: int|
                    0 <= k < n && entry_matches(pre.entries@[k], self.entries@[j]);
                assert(pre.entries@[k].0@ == o);
                let k0 = choose|k0: int| 0 <= k0 < pre.entries@.len() && pre.entries@[k0].0@ == o;
                assert(pre.entries@[k0].0@ == o);
                if k0 != k {
                    assert(pre.wf());
                    assert(false);
                }
                assert(pre.record_of(o) == pre.entries@[k].1);
                assert(self.record_of(o) == self.entries@[choose|j2: int|
                    0 <= j2 < self.entries@.len() && self.entries@[j2].0@ == o].1);
                assert(entry_matches(kept@[j], pre.entries@[k]));
                assert(kept_has(kept@, pre.entries@[k]));
            }
            assert forall|o: Seq<char>|
                (#[trigger] pre.contains_id(o) && !(!has_id(current_ids@, o)
                    && spec_clamped_diff(now, pre.record_of(o).last_seen)
                    > INACTIVITY_THRESHOLD_SECS)) implies self.contains_id(o) by {
                let k0 = choose|k0: int| 0 <= k0 < pre.entries@.len() && pre.entries@[k0].0@ == o;
                assert(pre.record_of(o) == pre.entries@[k0].1);
                assert(kept_has(kept@, pre.entries@[k0]));
                let j = choose|j: int|
                    0 <= j < kept@.len() && entry_matches(kept@[j], pre.entries@[k0]);
                assert(self.entries@[j].0@ == o);
            }
        }
    }
}

/// Two store entries carry the same identity and the same record.
pub open spec fn entry_matches(a: (String, SessionRecord), b: (String, SessionRecord)) -> bool {
    a.0@ == b.0@ && a.1 == b.1
}

/// Some entry of `s` matches `e`.
pub open spec fn kept_has(s: Seq<(String, SessionRecord)>, e: (String, SessionRecord)) -> bool {
    exists|j: int| 0 <= j < s.len() && entry_matches(s[j], e)
}

/// Whether a list of identity strings contains `id`.
pub(crate) fn contains_string(ids: &Vec<String>, id: &str) -> (r: bool)
    ensures
        r == has_id(ids@, id@),
{
    let n = ids.len();
    let mut i: usize = 0;
    while i < n
        invariant
            i <= n,
            n == ids@.len(),
            forall|j: int| 0 <= j < i ==> ids@[j]@ != id@,
        decreases n - i,
    {
        if str_eq(ids[i].as_str(), id) {
            return true;
        }
        i += 1;
    }
    false
}

} // verus!
