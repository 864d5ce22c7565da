//! Candidate request shapes for the peer operations whose accepted form
//! varies across deployments: announcements, shutdown and moderation.
//!
//! Each operation enumerates an ordered candidate list; the driver issues
//! them through the negotiation machine, first success wins.

use vstd::prelude::*;

use crate::strutil::{concat2, concat3, concat4};
use crate::urls::{spec_v1_base, v1_base};

verus! {

/// The percent-encoding of a string's UTF-8 bytes; a function of the
/// characters alone.
pub uninterp spec fn url_encoded_of(s: Seq<char>) -> Seq<char>;

/// Relies on urlencoding's `encode`: percent-encodes every byte except
/// ASCII alphanumerics and `-`, `_`, `.`, `~`; the result is a function of
/// the input alone, and an empty input stays empty.
#[verifier::external_body]
fn url_encode(s: &str) -> (r: String)
    ensures
        r@ == url_encoded_of(s@),
        s@.len() == 0 ==> r@.len() == 0,
{
    urlencoding::encode(s).into_owned()
}

/// How one announce candidate carries its message.
#[derive(Clone, Copy, Debug, PartialEq, Eq, Structural)]
pub enum AnnounceKind {
    /// POST with a JSON `message` body.
    PostJson,
    /// POST with the plain message text as body.
    PostText,
    /// GET with the encoded message in the query string.
    GetQuery,
}

/// One announce candidate: the exact URL to hit, how, and with what body.
#[derive(Clone, Debug)]
pub struct AnnounceAttempt {
    pub url: String,
    pub kind: AnnounceKind,
    pub body: String,
}

/// The JSON body an announce candidate posts (the message is interpolated
/// verbatim, as the peer's own quoting rules are unknown).
pub open spec fn spec_announce_json_body(msg: Seq<char>) -> Seq<char> {
    "{\"message\":\""@ + msg + "\"}"@
}

/// The URL of a query-string announce candidate.
pub open spec fn spec_announce_query_url(v1: Seq<char>, path: Seq<char>, msg: Seq<char>) -> Seq<
    char,
> {
    v1 + "/"@ + path + "?message="@ + url_encoded_of(msg)
}

/// The ordered announce candidates: for each of the paths `announce` then
/// `broadcast`, a JSON-body POST, a plain-text POST, then a query-string
/// GET.  The first candidate answered with a successful status wins.
pub fn announce_candidates(base: &str, msg: &str) -> (r: Vec<AnnounceAttempt>)
    ensures
        r@.len() == 6,
        ({
            let v1 = spec_v1_base(base@);
            &&& r@[0].url@ == v1 + "/announce"@ && r@[0].kind == AnnounceKind::PostJson
                && r@[0].body@ == spec_announce_json_body(msg@)
            &&& r@[1].url@ == v1 + "/announce"@ && r@[1].kind == AnnounceKind::PostText
                && r@[1].body@ == msg@
            &&& r@[2].url@ == spec_announce_query_url(v1, "announce"@, msg@) && r@[2].kind
                == AnnounceKind::GetQuery && r@[2].body@.len() == 0
            &&& r@[3].url@ == v1 + "/broadcast"@ && r@[3].kind == AnnounceKind::PostJson
                && r@[3].body@ == spec_announce_json_body(msg@)
            &&& r@[4].url@ == v1 + "/broadcast"@ && r@[4].kind == AnnounceKind::PostText
                && r@[4].body@ == msg@
            &&& r@[5].url@ == spec_announce_query_url(v1, "broadcast"@, msg@) && r@[5].kind
                == AnnounceKind::GetQuery && r@[5].body@.len() == 0
        }),
{
    let v1 = v1_base(base);
    let encoded = url_encode(msg);
    let json_body = concat3("{\"message\":\"", msg, "\"}");
    let mut out: Vec<AnnounceAttempt> = Vec::new();
    out.push(
        AnnounceAttempt {
            url: concat2(v1.as_str(), "/announce"),
            kind: AnnounceKind::PostJson,
            body: json_body.clone(),
        },
    );
    out.push(
        AnnounceAttempt {
            url: concat2(v1.as_str(), "/announce"),
            kind: AnnounceKind::PostText,
            body: msg.to_owned(),
        },
    );
    out.push(
        AnnounceAttempt {
            url: concat4(v1.as_str(), "/", "announce", "?message=").concat(encoded.as_str()),
            kind: AnnounceKind::GetQuery,
            body: String::new(),
        },
    );
    out.push(
        AnnounceAttempt {
            url: concat2(v1.as_str(), "/broadcast"),
            kind: AnnounceKind::PostJson,
            body: json_body,
        },
    );
    out.push(
        AnnounceAttempt {
            url: concat2(v1.as_str(), "/broadcast"),
            kind: AnnounceKind::PostText,
            body: msg.to_owned(),
        },
    );
    out.push(
        AnnounceAttempt {
            url: concat4(v1.as_str(), "/", "broadcast", "?message=").concat(encoded.as_str()),
            kind: AnnounceKind::GetQuery,
            body: String::new(),
        },
    );
    proof {
        assert(out@[0].url@ == spec_v1_base(base@) + "/announce"@);
        assert(out@[2].url@ =~= spec_announce_query_url(spec_v1_base(base@), "announce"@, msg@))
            by {
            reveal_strlit("/");
            reveal_strlit("announce");
            reveal_strlit("/announce");
            reveal_strlit("?message=");
        }
        assert(out@[5].url@ =~= spec_announce_query_url(spec_v1_base(base@), "broadcast"@, msg@))
            by {
            reveal_strlit("/");
            reveal_strlit("broadcast");
            reveal_strlit("/broadcast");
            reveal_strlit("?message=");
        }
    }
    out
}

/// One shutdown body shape: the field name under which the wait time is
/// sent, the wait time itself, and the message shown to players.
#[derive(Clone, Debug)]
pub struct ShutdownBody {
    pub field: String,
    pub wait_seconds: u64,
    pub message: String,
}

/// The ordered shutdown body shapes: the wait-time field named
/// `waittime`, `seconds`, `time` then `duration`, each with a one-second
/// wait and the given reason.  If every shape fails, one final attempt is
/// made with an empty body and an explicit zero content length.
pub fn shutdown_body_candidates(reason: &str) -> (r: Vec<ShutdownBody>)
    ensures
        r@.len() == 4,
        r@[0].field@ == "waittime"@,
        r@[1].field@ == "seconds"@,
        r@[2].field@ == "time"@,
        r@[3].field@ == "duration"@,
        forall|i: int|
            0 <= i < 4 ==> r@[i].wait_seconds == 1 && (#[trigger] r@[i].message)@ == reason@,
{
    let mut out: Vec<ShutdownBody> = Vec::new();
    out.push(
        ShutdownBody { field: "waittime".to_owned(), wait_seconds: 1, message: reason.to_owned() },
    );
    out.push(
        ShutdownBody { field: "seconds".to_owned(), wait_seconds: 1, message: reason.to_owned() },
    );
    out.push(
        ShutdownBody { field: "time".to_owned(), wait_seconds: 1, message: reason.to_owned() },
    );
    out.push(
        ShutdownBody { field: "duration".to_owned(), wait_seconds: 1, message: reason.to_owned() },
    );
    out
}

/// One moderation body shape: the field name under which the player
/// identity is sent.
#[derive(Clone, Debug)]
pub struct IdBody {
    pub field: String,
    pub player_id: String,
}

/// The ordered moderation body shapes for kick, ban and unban: the
/// identity sent as `steamId`, `playerId` then `id`; a final no-body
/// attempt follows when every shape fails.
pub fn id_body_candidates(player_id: &str) -> (r: Vec<IdBody>)
    ensures
        r@.len() == 3,
        r@[0].field@ == "steamId"@,
        r@[1].field@ == "playerId"@,
        r@[2].field@ == "id"@,
        forall|i: int| 0 <= i < 3 ==> (#[trigger] r@[i].player_id)@ == player_id@,
{
    let mut out: Vec<IdBody> = Vec::new();
    out.push(IdBody { field: "steamId".to_owned(), player_id: player_id.to_owned() });
    out.push(IdBody { field: "playerId".to_owned(), player_id: player_id.to_owned() });
    out.push(IdBody { field: "id".to_owned(), player_id: player_id.to_owned() });
    out
}

/// The paths tried to lift a ban: `unban`, then the `pardon` alias.
pub fn unban_paths() -> (r: Vec<&'static str>)
    ensures
        r@.len() == 2,
        r@[0]@ == "unban"@,
        r@[1]@ == "pardon"@,
{
    let mut out: Vec<&'static str> = Vec::new();
    out.push("unban");
    out.push("pardon");
    out
}

} // verus!
