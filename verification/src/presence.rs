//! Join/leave detection between polls.
//!
//! Each poll's identity set is compared against the previous one: an
//! identity present now but not before has joined, one present before but
//! not now has left.  Names are resolved for the notifications, falling
//! back to the raw identity.

use vstd::prelude::*;

use crate::coerce::Player;
use crate::strutil::{concat2, str_eq};
use crate::tracker::{contains_string, has_id, PlayerTracker};
use crate::strutil::spec_clamped_diff;

verus! {

/// The identities of a poll's players, in poll order.
pub fn id_list(players: &Vec<Player>) -> (r: Vec<String>)
    ensures
        r@.len() == players@.len(),
        forall|i: int| 0 <= i < r@.len() ==> (#[trigger] r@[i])@ == players@[i].id@,
{
    let n = players.len();
    let mut out: Vec<String> = Vec::new();
    let mut i: usize = 0;
    while i < n
        invariant
            i <= n,
            n == players@.len(),
            out@.len() == i,
            forall|j: int| 0 <= j < i ==> (#[trigger] out@[j])@ == players@[j].id@,
        decreases n - i,
    {
        out.push(players[i].id.clone());
        i += 1;
    }
    out
}

/// The identities of `src` that are absent from `exclude`, each once, in
/// first-occurrence order.
fn ids_not_in(src: &Vec<String>, exclude: &Vec<String>) -> (r: Vec<String>)
    ensures
        forall|id: Seq<char>|
            #[trigger] has_id(r@, id) <==> (has_id(src@, id) && !has_id(exclude@, id)),
        forall|j: int, k: int| 0 <= j < k < r@.len() ==> r@[j]@ != r@[k]@,
{
    let n = src.len();
    let mut out: Vec<String> = Vec::new();
    let mut i: usize = 0;
    while i < n
        invariant
            i <= n,
            n == src@.len(),
            forall|j: int, k: int| 0 <= j < k < out@.len() ==> out@[j]@ != out@[k]@,
            forall|id: Seq<char>|
                #[trigger] has_id(out@, id) <==> ((exists|j: int|
                    0 <= j < i && src@[j]@ == id) && !has_id(exclude@, id)),
        decreases n - i,
    {
        let ghost out0 = out@;
        let s = &src[i];
        if !contains_string(exclude, s.as_str()) && !contains_string(&out, s.as_str()) {
            out.push(s.clone());
            proof {
                assert(out@.drop_last() =~= out0);
                assert(out@[out0.len() as int]@ == src@[i as int]@);
                assert forall|id: Seq<char>| #[trigger] has_id(out@, id) implies ((exists|j: int|
                    0 <= j < i + 1 && src@[j]@ == id) && !has_id(exclude@, id)) by {
                    let j = choose|j: int| 0 <= j < out@.len() && out@[j]@ == id;
                    if j < out0.len() {
                        assert(has_id(out0, id));
                    } else {
                        assert(src@[i as int]@ == id);
                    }
                }
                assert forall|id: Seq<char>|
                    ((exists|j: int| 0 <= j < i + 1 && src@[j]@ == id) && !has_id(
                        exclude@,
                        id,
                    )) implies #[trigger] has_id(out@, id) by {
                    let j = choose|j: int| 0 <= j < i + 1 && src@[j]@ == id;
                    if j < i {
                        assert(has_id(out0, id));
                        let k = choose|k: int| 0 <= k < out0.len() && out0[k]@ == id;
                        assert(out@[k]@ == id);
                    } else {
                        assert(out@[out0.len() as int]@ == id);
                    }
                }
            }
        } else {
            proof {
                assert forall|id: Seq<char>| #[trigger] has_id(out@, id) implies ((exists|j: int|
                    0 <= j < i + 1 && src@[j]@ == id) && !has_id(exclude@, id)) by {}
                assert forall|id: Seq<char>|
                    ((exists|j: int| 0 <= j < i + 1 && src@[j]@ == id) && !has_id(
                        exclude@,
                        id,
                    )) implies #[trigger] has_id(out@, id) by {
                    let j = choose|j: int| 0 <= j < i + 1 && src@[j]@ == id;
                    if j == i {
                        if has_id(exclude@, id) {
                        } else {
                            assert(has_id(out@, src@[i as int]@));
                        }
                    }
                }
            }
        }
        i += 1;
    }
    out
}

/// Splits the change between two polls: identities that joined (present
/// now, absent before) and identities that left (present before, absent
/// now), each listed once.
pub fn diff_ids(prev: &Vec<String>, current: &Vec<String>) -> (r: (Vec<String>, Vec<String>))
    ensures
        forall|id: Seq<char>|
            #[trigger] has_id(r.0@, id) <==> (has_id(current@, id) && !has_id(prev@, id)),
        forall|id: Seq<char>|
            #[trigger] has_id(r.1@, id) <==> (has_id(prev@, id) && !has_id(current@, id)),
        forall|j: int, k: int| 0 <= j < k < r.0@.len() ==> r.0@[j]@ != r.0@[k]@,
        forall|j: int, k: int| 0 <= j < k < r.1@.len() ==> r.1@[j]@ != r.1@[k]@,
{
    let joined = ids_not_in(current, prev);
    let left = ids_not_in(prev, current);
    (joined, left)
}

/// The first name recorded for an identity in an (identity, name) list,
/// falling back to the identity itself.
pub open spec fn spec_name_for(pairs: Seq<(String, String)>, id: Seq<char>) -> Seq<char>
    decreases pairs.len(),
{
    if pairs.len() == 0 {
        id
    } else if pairs.first().0@ == id {
        pairs.first().1@
    } else {
        spec_name_for(pairs.drop_first(), id)
    }
}

/// The (identity, name) pairs of a poll, in poll order.
pub fn name_pairs(players: &Vec<Player>) -> (r: Vec<(String, String)>)
    ensures
        r@.len() == players@.len(),
        forall|i: int|
            0 <= i < r@.len() ==> (#[trigger] r@[i]).0@ == players@[i].id@ && r@[i].1@
                == players@[i].name@,
{
    let n = players.len();
    let mut out: Vec<(String, String)> = Vec::new();
    let mut i: usize = 0;
    while i < n
        invariant
            i <= n,
            n == players@.len(),
            out@.len() == i,
            forall|j: int|
                0 <= j < i ==> (#[trigger] out@[j]).0@ == players@[j].id@ && out@[j].1@
                    == players@[j].name@,
        decreases n - i,
    {
        out.push((players[i].id.clone(), players[i].name.clone()));
        i += 1;
    }
    out
}

/// Resolves the display name for an identity.
pub fn name_for(pairs: &Vec<(String, String)>, id: &str) -> (r: String)
    ensures
        r@ == spec_name_for(pairs@, id@),
{
    let n = pairs.len();
    proof {
        assert(pairs@.skip(0) =~= pairs@);
    }
    let mut i: usize = 0;
    while i < n
        invariant
            i <= n,
            n == pairs@.len(),
            spec_name_for(pairs@, id@) == spec_name_for(pairs@.skip(i as int), id@),
        decreases n - i,
    {
        proof {
            assert(pairs@.skip(i as int).first() == pairs@[i as int]);
            assert(pairs@.skip(i as int).drop_first() =~= pairs@.skip(i + 1));
        }
        if str_eq(pairs[i].0.as_str(), id) {
            return pairs[i].1.clone();
        }
        i += 1;
    }
    proof {
        assert(pairs@.skip(n as int) =~= Seq::<(String, String)>::empty());
    }
    id.to_owned()
}

/// The notification for a joined player.
pub fn player_joined_message(name: &str) -> (r: String)
    ensures
        r@ == "Player joined: "@ + name@,
{
    concat2("Player joined: ", name)
}

/// The notification for a departed player.
pub fn player_left_message(name: &str) -> (r: String)
    ensures
        r@ == "Player left: "@ + name@,
{
    concat2("Player left: ", name)
}

/// Fills each player's missing connected-seconds from the session store
/// as of `now`: a value the peer supplied is kept; everything else about
/// every player is unchanged.
pub fn backfill_connected(tr: &PlayerTracker, players: &mut Vec<Player>, now: i64)
    requires
        tr.wf(),
    ensures
        final(players)@.len() == old(players)@.len(),
        forall|i: int|
            0 <= i < final(players)@.len() ==> {
                let np = #[trigger] final(players)@[i];
                let op = old(players)@[i];
                &&& np.id@ == op.id@
                &&& np.name@ == op.name@
                &&& np.level == op.level
                &&& np.ping == op.ping
                &&& np.connected_seconds == (if op.connected_seconds is Some {
                    op.connected_seconds
                } else if tr.contains_id(op.id@) {
                    Some(spec_clamped_diff(now, tr.record_of(op.id@).first_seen))
                } else {
                    None
                })
            },
{
    let n = players.len();
    let mut i: usize = 0;
    while i < n
        invariant
            i <= n,
            n == players@.len(),
            tr.wf(),
            players@.len() == old(players)@.len(),
            forall|j: int| i <= j < n ==> #[trigger] players@[j] == old(players)@[j],
            forall|j: int|
                0 <= j < i ==> {
                    let np = #[trigger] players@[j];
                    let op = old(players)@[j];
                    &&& np.id@ == op.id@
                    &&& np.name@ == op.name@
                    &&& np.level == op.level
                    &&& np.ping == op.ping
                    &&& np.connected_seconds == (if op.connected_seconds is Some {
                        op.connected_seconds
                    } else if tr.contains_id(op.id@) {
                        Some(spec_clamped_diff(now, tr.record_of(op.id@).first_seen))
                    } else {
                        None
                    })
                },
        decreases n - i,
    {
        let needs_fill = players[i].connected_seconds.is_none();
        if needs_fill {
            let cs = tr.connected_for(players[i].id.as_str(), now);
            let np = Player {
                id: players[i].id.clone(),
                name: players[i].name.clone(),
                level: players[i].level,
                ping: players[i].ping,
                connected_seconds: cs,
            };
            players.set(i, np);
        }
        i += 1;
    }
}

} // verus!
