//! Normalizing heterogeneous response shapes into canonical records.
//!
//! Peer deployments disagree on key names and on numeric representations,
//! so each canonical field is read through an ordered key chain, numbers
//! are accepted as integers, floats or numeric strings, and a player's
//! identity is canonicalized: an id-like string embedding a 17-digit
//! platform identifier is reformatted to `steam_<digits>` so the same
//! player is recognized across differently-shaped responses.  This stage
//! never fails: absent or malformed fields degrade to documented defaults.

use vstd::prelude::*;

use crate::json::{
    i_alt, s_alt, spec_get, spec_i_alt, spec_s_alt, spec_u_alt, u_alt, views_of, JsonValue,
};
use crate::strutil::{concat2, decimal_of, is_digit, is_digit_char, u64_to_string};

verus! {

/// Canonical server description, derived per poll.
#[derive(Clone, Debug)]
pub struct ServerInfo {
    pub name: String,
    pub map: Option<String>,
    pub players_online: u64,
    pub max_players: Option<u64>,
    pub uptime_seconds: Option<u64>,
}

/// The mathematical shadow of [`ServerInfo`].
pub ghost struct ServerInfoModel {
    pub name: Seq<char>,
    pub map: Option<Seq<char>>,
    pub players_online: u64,
    pub max_players: Option<u64>,
    pub uptime_seconds: Option<u64>,
}

impl View for ServerInfo {
    type V = ServerInfoModel;

    open spec fn view(&self) -> ServerInfoModel {
        ServerInfoModel {
            name: self.name@,
            map: match self.map {
                Some(m) => Some(m@),
                None => None,
            },
            players_online: self.players_online,
            max_players: self.max_players,
            uptime_seconds: self.uptime_seconds,
        }
    }
}

/// Canonical player record, derived per poll.
#[derive(Clone, Debug)]
pub struct Player {
    pub id: String,
    pub name: String,
    pub level: Option<u32>,
    pub ping: Option<u32>,
    pub connected_seconds: Option<i64>,
}

/// The mathematical shadow of [`Player`].
pub ghost struct PlayerModel {
    pub id: Seq<char>,
    pub name: Seq<char>,
    pub level: Option<u32>,
    pub ping: Option<u32>,
    pub connected_seconds: Option<i64>,
}

impl View for Player {
    type V = PlayerModel;

    open spec fn view(&self) -> PlayerModel {
        PlayerModel {
            id: self.id@,
            name: self.name@,
            level: self.level,
            ping: self.ping,
            connected_seconds: self.connected_seconds,
        }
    }
}

/// A response may nest the payload under a wrapping `data` field.
pub open spec fn spec_root(v: JsonValue) -> JsonValue {
    match spec_get(v, "data"@) {
        Some(d) => d,
        None => v,
    }
}

pub open spec fn server_name_keys() -> Seq<Seq<char>> {
    seq!["servername"@, "name"@, "serverName"@]
}

pub open spec fn map_keys() -> Seq<Seq<char>> {
    seq!["map"@, "world"@, "World"@]
}

pub open spec fn max_players_keys() -> Seq<Seq<char>> {
    seq!["max_players"@, "maxPlayers"@, "MaxPlayers"@]
}

pub open spec fn uptime_keys() -> Seq<Seq<char>> {
    seq!["uptime"@, "uptimeSeconds"@, "Uptime"@]
}

pub open spec fn player_count_keys() -> Seq<Seq<char>> {
    seq!["players_online"@, "playersOnline"@, "currentPlayers"@]
}

pub open spec fn id_keys() -> Seq<Seq<char>> {
    seq![
        "userId"@,
        "user_id"@,
        "steamId"@,
        "SteamID"@,
        "steam_id"@,
        "id"@,
        "playerId"@,
        "uid"@,
    ]
}

pub open spec fn player_name_keys() -> Seq<Seq<char>> {
    seq!["name"@, "playerName"@, "characterName"@, "displayName"@]
}

pub open spec fn level_keys() -> Seq<Seq<char>> {
    seq!["level"@, "lvl"@]
}

pub open spec fn ping_keys() -> Seq<Seq<char>> {
    seq!["ping"@, "latency"@]
}

pub open spec fn connected_keys() -> Seq<Seq<char>> {
    seq![
        "connected_seconds"@,
        "connectedSeconds"@,
        "sessionSeconds"@,
        "playTimeSec"@,
        "playTimeSeconds"@,
    ]
}

/// The canonical server record a response coerces to: names through their
/// key chains with `Unknown` as default, the player count defaulting to
/// zero and back-filled from the size of a `players` collection when no
/// (non-zero) explicit count is present.
pub open spec fn spec_server_info(v: JsonValue) -> ServerInfoModel {
    let root = spec_root(v);
    let direct = match spec_u_alt(root, player_count_keys()) {
        Some(u) => u,
        None => 0,
    };
    ServerInfoModel {
        name: match spec_s_alt(root, server_name_keys()) {
            Some(n) => n,
            None => "Unknown"@,
        },
        map: spec_s_alt(root, map_keys()),
        players_online: if direct == 0 {
            match spec_get(root, "players"@) {
                Some(JsonValue::Arr(a)) => a@.len() as u64,
                Some(JsonValue::Obj(o)) => o@.len() as u64,
                _ => 0,
            }
        } else {
            direct
        },
        max_players: spec_u_alt(root, max_players_keys()),
        uptime_seconds: spec_u_alt(root, uptime_keys()),
    }
}

/// Coerces a response to the canonical server record.
pub fn coerce_server_info(v: &JsonValue) -> (r: ServerInfo)
    ensures
        r@ == spec_server_info(*v),
{
    let root: &JsonValue = match v.get("data") {
        Some(d) => d,
        None => v,
    };
    proof {
        assert(*root == spec_root(*v));
    }
    let name_keys: Vec<&str> = vec!["servername", "name", "serverName"];
    let mkeys: Vec<&str> = vec!["map", "world", "World"];
    let max_keys: Vec<&str> = vec!["max_players", "maxPlayers", "MaxPlayers"];
    let up_keys: Vec<&str> = vec!["uptime", "uptimeSeconds", "Uptime"];
    let count_keys: Vec<&str> = vec!["players_online", "playersOnline", "currentPlayers"];
    proof {
        assert(views_of(name_keys@) =~~= server_name_keys());
        assert(views_of(mkeys@) =~~= map_keys());
        assert(views_of(max_keys@) =~~= max_players_keys());
        assert(views_of(up_keys@) =~~= uptime_keys());
        assert(views_of(count_keys@) =~~= player_count_keys());
    }
    let name = match s_alt(root, &name_keys) {
        Some(n) => n,
        None => "Unknown".to_owned(),
    };
    let map = s_alt(root, &mkeys);
    let max_players = u_alt(root, &max_keys);
    let uptime_seconds = u_alt(root, &up_keys);
    let direct = match u_alt(root, &count_keys) {
        Some(u) => u,
        None => 0,
    };
    let players_online = if direct == 0 {
        match root.get("players") {
            Some(pl) => match pl {
                JsonValue::Arr(a) => a.len() as u64,
                JsonValue::Obj(o) => o.len() as u64,
                _ => 0,
            },
            None => 0,
        }
    } else {
        direct
    };
    ServerInfo { name, map, players_online, max_players, uptime_seconds }
}

/// Fills a missing uptime from a metrics response (read through the
/// uptime key chain, directly at its top level); every other field, and
/// an uptime the peer already supplied, stays as it is.
pub fn backfill_uptime(info: &mut ServerInfo, mv: &JsonValue)
    ensures
        final(info).name@ == old(info).name@,
        final(info).map == old(info).map,
        final(info).players_online == old(info).players_online,
        final(info).max_players == old(info).max_players,
        final(info).uptime_seconds == (if old(info).uptime_seconds is Some {
            old(info).uptime_seconds
        } else {
            spec_u_alt(*mv, uptime_keys())
        }),
{
    if info.uptime_seconds.is_none() {
        let up_keys: Vec<&str> = vec!["uptime", "uptimeSeconds", "Uptime"];
        proof {
            assert(views_of(up_keys@) =~~= uptime_keys());
        }
        info.uptime_seconds = u_alt(mv, &up_keys);
    }
}

/// A maximal run of exactly 17 decimal digits starts at `i`.
pub open spec fn digit_run_at(s: Seq<char>, i: int) -> bool {
    &&& 0 <= i
    &&& i + 17 <= s.len()
    &&& forall|j: int| i <= j < i + 17 ==> is_digit_char(#[trigger] s[j])
    &&& (i == 0 || !is_digit_char(s[i - 1]))
    &&& (i + 17 == s.len() || !is_digit_char(s[i + 17]))
}

/// The id embeds a 17-digit platform identifier.
pub open spec fn has_digit_run(s: Seq<char>) -> bool {
    exists|i: int| digit_run_at(s, i)
}

/// The position of the leftmost embedded identifier.
pub open spec fn leftmost_digit_run(s: Seq<char>) -> int {
    choose|i: int| digit_run_at(s, i) && (forall|j: int| 0 <= j < i ==> !digit_run_at(s, j))
}

/// When some identifier is embedded, a leftmost one exists, and
/// [`leftmost_digit_run`] denotes it.
pub proof fn lemma_leftmost_digit_run(s: Seq<char>)
    requires
        has_digit_run(s),
    ensures
        digit_run_at(s, leftmost_digit_run(s)),
        forall|j: int| 0 <= j < leftmost_digit_run(s) ==> !digit_run_at(s, j),
{
    let w = choose|i: int| digit_run_at(s, i);
    lemma_first_run_exists(s, w);
}

proof fn lemma_first_run_exists(s: Seq<char>, w: int)
    requires
        digit_run_at(s, w),
    ensures
        digit_run_at(s, leftmost_digit_run(s)),
        forall|j: int| 0 <= j < leftmost_digit_run(s) ==> !digit_run_at(s, j),
    decreases w,
{
    if exists|j: int| 0 <= j < w && digit_run_at(s, j) {
        let j = choose|j: int| 0 <= j < w && digit_run_at(s, j);
        lemma_first_run_exists(s, j);
    } else {
        assert(digit_run_at(s, w) && (forall|j: int| 0 <= j < w ==> !digit_run_at(s, j)));
    }
}

/// The canonical identity: an id embedding a 17-digit platform identifier
/// becomes `steam_` followed by the leftmost such run; any other id stays
/// as it is.
pub open spec fn spec_canonical_id(s: Seq<char>) -> Seq<char> {
    if has_digit_run(s) {
        "steam_"@ + s.subrange(leftmost_digit_run(s), leftmost_digit_run(s) + 17)
    } else {
        s
    }
}

/// Whether a maximal 17-digit run starts at `i`.
fn run_at(s: &str, i: usize, len: usize) -> (r: bool)
    requires
        len == s@.len(),
        i + 17 <= len,
    ensures
        r == digit_run_at(s@, i as int),
{
    if i > 0 && is_digit(s.get_char(i - 1)) {
        return false;
    }
    if i + 17 < len && is_digit(s.get_char(i + 17)) {
        return false;
    }
    let mut j = i;
    while j < i + 17
        invariant
            i <= j <= i + 17,
            i + 17 <= len,
            len == s@.len(),
            forall|k: int| i <= k < j ==> is_digit_char(#[trigger] s@[k]),
        decreases i + 17 - j,
    {
        if !is_digit(s.get_char(j)) {
            return false;
        }
        j += 1;
    }
    true
}

/// Canonicalizes a player identity.
pub fn canonical_player_id(id: &str) -> (r: String)
    ensures
        r@ == spec_canonical_id(id@),
{
    let len = id.unicode_len();
    if len < 17 {
        proof {
            assert(!has_digit_run(id@));
        }
        return id.to_owned();
    }
    let mut i: usize = 0;
    while i <= len - 17
        invariant
            len == id@.len(),
            17 <= len,
            i <= len,
            forall|j: int| 0 <= j < i ==> !digit_run_at(id@, j),
        decreases len - i,
    {
        if run_at(id, i, len) {
            proof {
                assert(has_digit_run(id@)) by {
                    assert(digit_run_at(id@, i as int));
                }
                lemma_leftmost_digit_run(id@);
                let l = leftmost_digit_run(id@);
                if l < i {
                    assert(!digit_run_at(id@, l));
                } else if l > i {
                    assert(!digit_run_at(id@, i as int));
                }
                assert(l == i);
            }
            let digits = id.substring_char(i, i + 17);
            return concat2("steam_", digits);
        }
        i += 1;
    }
    proof {
        assert forall|j: int| 0 <= j implies !digit_run_at(id@, j) by {
            if j + 17 <= id@.len() {
                assert(j < i);
            }
        }
        assert(!has_digit_run(id@));
    }
    id.to_owned()
}

/// A numeric id field rendered in decimal, for peers that send a raw
/// number instead of an id string.
pub open spec fn spec_num_id(v: JsonValue, key: Seq<char>) -> Option<Seq<char>> {
    match spec_get(v, key) {
        Some(JsonValue::Num(n)) => match n.as_u {
            Some(u) => Some(decimal_of(u as nat)),
            None => None,
        },
        _ => None,
    }
}

fn num_id(v: &JsonValue, key: &str) -> (r: Option<String>)
    ensures
        match r {
            Some(s) => spec_num_id(*v, key@) == Some(s@),
            None => spec_num_id(*v, key@) is None,
        },
{
    match v.get(key) {
        Some(x) => match x {
            JsonValue::Num(n) => match n.as_u {
                Some(u) => Some(u64_to_string(u)),
                None => None,
            },
            _ => None,
        },
        None => None,
    }
}

/// The raw identity an object yields before canonicalization: the first
/// string-valued id-like key, else the first of `steamId`, `id`,
/// `playerId` holding an unsigned number, rendered in decimal.
pub open spec fn spec_raw_id(v: JsonValue) -> Option<Seq<char>> {
    match spec_s_alt(v, id_keys()) {
        Some(s) => Some(s),
        None => match spec_num_id(v, "steamId"@) {
            Some(d) => Some(d),
            None => match spec_num_id(v, "id"@) {
                Some(d) => Some(d),
                None => spec_num_id(v, "playerId"@),
            },
        },
    }
}

/// The canonical player record an object coerces to, absent exactly when
/// no id-like field is usable.
pub open spec fn spec_player_from(v: JsonValue) -> Option<PlayerModel> {
    match spec_raw_id(v) {
        None => None,
        Some(rid) => Some(
            PlayerModel {
                id: spec_canonical_id(rid),
                name: match spec_s_alt(v, player_name_keys()) {
                    Some(n) => n,
                    None => "Unknown"@,
                },
                level: match spec_u_alt(v, level_keys()) {
                    Some(u) => Some((u % 0x1_0000_0000) as u32),
                    None => None,
                },
                ping: match spec_u_alt(v, ping_keys()) {
                    Some(u) => Some((u % 0x1_0000_0000) as u32),
                    None => None,
                },
                connected_seconds: spec_i_alt(v, connected_keys()),
            },
        ),
    }
}

/// Coerces one object to a player record; `None` when no id is usable.
pub fn player_from_obj(v: &JsonValue) -> (r: Option<Player>)
    ensures
        match r {
            Some(p) => spec_player_from(*v) == Some(p@),
            None => spec_player_from(*v) is None,
        },
{
    let ikeys: Vec<&str> = vec![
        "userId",
        "user_id",
        "steamId",
        "SteamID",
        "steam_id",
        "id",
        "playerId",
        "uid",
    ];
    let nkeys: Vec<&str> = vec!["name", "playerName", "characterName", "displayName"];
    let lkeys: Vec<&str> = vec!["level", "lvl"];
    let pkeys: Vec<&str> = vec!["ping", "latency"];
    let ckeys: Vec<&str> = vec![
        "connected_seconds",
        "connectedSeconds",
        "sessionSeconds",
        "playTimeSec",
        "playTimeSeconds",
    ];
    proof {
        assert(views_of(ikeys@) =~~= id_keys());
        assert(views_of(nkeys@) =~~= player_name_keys());
        assert(views_of(lkeys@) =~~= level_keys());
        assert(views_of(pkeys@) =~~= ping_keys());
        assert(views_of(ckeys@) =~~= connected_keys());
    }
    let raw: Option<String> = match s_alt(v, &ikeys) {
        Some(s) => Some(s),
        None => match num_id(v, "steamId") {
            Some(d) => Some(d),
            None => match num_id(v, "id") {
                Some(d) => Some(d),
                None => num_id(v, "playerId"),
            },
        },
    };
    let rid = match raw {
        Some(s) => s,
        None => {
            return None;
        },
    };
    let id = canonical_player_id(rid.as_str());
    let name = match s_alt(v, &nkeys) {
        Some(n) => n,
        None => "Unknown".to_owned(),
    };
    let level = match u_alt(v, &lkeys) {
        Some(u) => Some((u % 0x1_0000_0000u64) as u32),
        None => None,
    };
    let ping = match u_alt(v, &pkeys) {
        Some(u) => Some((u % 0x1_0000_0000u64) as u32),
        None => None,
    };
    let connected_seconds = i_alt(v, &ckeys);
    Some(Player { id, name, level, ping, connected_seconds })
}

/// The object sequence a players response enumerates: the value under
/// `players` (itself, when no such field wraps it), as an array's
/// elements or an object's values; anything else enumerates nothing.
pub open spec fn spec_player_source(v: JsonValue) -> Seq<JsonValue> {
    let root = spec_root(v);
    let pl = match spec_get(root, "players"@) {
        Some(p) => p,
        None => root,
    };
    match pl {
        JsonValue::Arr(a) => a@,
        JsonValue::Obj(o) => o@.map_values(|kv: (String, JsonValue)| kv.1),
        _ => Seq::empty(),
    }
}

/// The player records of an enumerated object sequence, in order,
/// skipping objects with no usable id.
pub open spec fn spec_players_of(elems: Seq<JsonValue>) -> Seq<PlayerModel>
    decreases elems.len(),
{
    if elems.len() == 0 {
        Seq::empty()
    } else {
        let rest = spec_players_of(elems.drop_last());
        match spec_player_from(elems.last()) {
            Some(p) => rest.push(p),
            None => rest,
        }
    }
}

/// Coerces a players response to the canonical records.
pub fn coerce_players(v: &JsonValue) -> (r: Vec<Player>)
    ensures
        r@.len() == spec_players_of(spec_player_source(*v)).len(),
        forall|i: int|
            0 <= i < r@.len() ==> r@[i]@ == spec_players_of(spec_player_source(*v))[i],
{
    let root: &JsonValue = match v.get("data") {
        Some(d) => d,
        None => v,
    };
    proof {
        assert(*root == spec_root(*v));
    }
    let pl: &JsonValue = match root.get("players") {
        Some(p) => p,
        None => root,
    };
    let ghost src = spec_player_source(*v);
    let mut out: Vec<Player> = Vec::new();
    match pl {
        JsonValue::Arr(a) => {
            let n = a.len();
            proof {
                assert(src =~= a@);
                assert(a@.take(0) =~= Seq::<JsonValue>::empty());
            }
            let mut i: usize = 0;
            while i < n
                invariant
                    i <= n,
                    n == a@.len(),
                    src == a@,
                    out@.len() == spec_players_of(a@.take(i as int)).len(),
                    forall|k: int|
                        0 <= k < out@.len() ==> out@[k]@ == spec_players_of(
                            a@.take(i as int),
                        )[k],
                decreases n - i,
            {
                proof {
                    assert(a@.take(i + 1).drop_last() =~= a@.take(i as int));
                    assert(a@.take(i + 1).last() == a@[i as int]);
                }
                match player_from_obj(&a[i]) {
                    Some(p) => out.push(p),
                    None => {},
                }
                i += 1;
            }
            proof {
                assert(a@.take(n as int) =~= a@);
            }
        },
        JsonValue::Obj(o) => {
            let n = o.len();
            let ghost vals = o@.map_values(|kv: (String, JsonValue)| kv.1);
            proof {
                assert(src =~= vals);
                assert(vals.take(0) =~= Seq::<JsonValue>::empty());
            }
            let mut i: usize = 0;
            while i < n
                invariant
                    i <= n,
                    n == o@.len(),
                    vals == o@.map_values(|kv: (String, JsonValue)| kv.1),
                    src == vals,
                    out@.len() == spec_players_of(vals.take(i as int)).len(),
                    forall|k: int|
                        0 <= k < out@.len() ==> out@[k]@ == spec_players_of(
                            vals.take(i as int),
                        )[k],
                decreases n - i,
            {
                proof {
                    assert(vals.take(i + 1).drop_last() =~= vals.take(i as int));
                    assert(vals.take(i + 1).last() == vals[i as int]);
                    assert(vals[i as int] == o@[i as int].1);
                }
                match player_from_obj(&o[i].1) {
                    Some(p) => out.push(p),
                    None => {},
                }
                i += 1;
            }
            proof {
                assert(vals.take(n as int) =~= vals);
            }
        },
        _ => {
            proof {
                assert(src =~= Seq::<JsonValue>::empty());
            }
        },
    }
    out
}

} // verus!
