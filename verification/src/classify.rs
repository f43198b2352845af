//! The raw frame classifier: given the routing key of a stream frame,
//! decide which typed event variant to decode into.  The match is an
//! ordered table — the exact matchmaking, game-flow and lobby keys first,
//! then one substring fallback for the friends sub-path — and a frame whose
//! key matches nothing is discarded.

use vstd::prelude::*;
use serde_json::Value;
use crate::decode::{decode_event_type, decode_friend, decode_gameflow, decode_lobby,
    decode_queue, opt_ref_tree, spec_decode_event_type, spec_decode_friend, spec_decode_gameflow,
    spec_decode_lobby, spec_decode_queue};
use crate::event::{EventType, LeagueEvent, LeagueEventKind, LeagueEventKindV, LeagueEventV};
use crate::json::{json_field, json_index, json_as_str, json_tree_of, parse_json, tree_field,
    tree_index, tree_str, value_tree, JsonV};
use crate::strutil::{contains_seq, matches_at, str_contains, str_eq};

verus! {

/// Which decoder a routing key selects.
#[derive(Debug, Clone, Copy, PartialEq, Eq, Structural)]
pub enum RouteClass {
    Queue,
    GameFlow,
    Lobby,
    Friend,
}

/// The matchmaking-search routing key.
pub open spec fn matchmaking_search_key() -> Seq<char> {
    "/lol-matchmaking/v1/search"@
}

/// The team-builder matchmaking routing key.
pub open spec fn team_builder_matchmaking_key() -> Seq<char> {
    "/lol-lobby-team-builder/v1/matchmaking"@
}

/// The game-flow session routing key.
pub open spec fn game_flow_session_key() -> Seq<char> {
    "/lol-gameflow/v1/session"@
}

/// The lobby routing key.
pub open spec fn lobby_key() -> Seq<char> {
    "/lol-lobby/v2/lobby"@
}

/// The friends sub-path, matched as a substring of the routing key.
pub open spec fn friends_key() -> Seq<char> {
    "/lol-chat/v1/friends"@
}

/// The ordered classification table: exact keys first, the friends
/// substring as fallback, anything else discarded.
pub open spec fn spec_classify(uri: Seq<char>) -> Option<RouteClass> {
    if uri == matchmaking_search_key() || uri == team_builder_matchmaking_key() {
        Some(RouteClass::Queue)
    } else if uri == game_flow_session_key() {
        Some(RouteClass::GameFlow)
    } else if uri == lobby_key() {
        Some(RouteClass::Lobby)
    } else if contains_seq(uri, friends_key()) {
        Some(RouteClass::Friend)
    } else {
        None
    }
}

/// Classify one routing key.
pub fn classify_key(uri: &str) -> (r: Option<RouteClass>)
    ensures
        r == spec_classify(uri@),
{
    if str_eq(uri, "/lol-matchmaking/v1/search") || str_eq(
        uri,
        "/lol-lobby-team-builder/v1/matchmaking",
    ) {
        Some(RouteClass::Queue)
    } else if str_eq(uri, "/lol-gameflow/v1/session") {
        Some(RouteClass::GameFlow)
    } else if str_eq(uri, "/lol-lobby/v2/lobby") {
        Some(RouteClass::Lobby)
    } else if str_contains(uri, "/lol-chat/v1/friends") {
        Some(RouteClass::Friend)
    } else {
        None
    }
}

/// A pattern with a character at position `k` that `s` holds nowhere cannot
/// be a substring of `s`.
proof fn lemma_absent_char_no_contains(s: Seq<char>, pat: Seq<char>, c: char, k: int)
    requires
        0 <= k < pat.len(),
        pat[k] == c,
        forall|i: int| 0 <= i < s.len() ==> s[i] != c,
    ensures
        !contains_seq(s, pat),
{
    assert forall|at: int| !matches_at(s, pat, at) by {
        if matches_at(s, pat, at) {
            assert(s[at + k] == pat[k]);
        }
    }
}

/// The friends fallback never shadows and is never shadowed: a routing key
/// that holds the friends sub-path is none of the exact keys, so the
/// classifier always selects the friend decoder for it — whether or not its
/// payload later decodes.
pub proof fn lemma_friends_substring_classifies(uri: Seq<char>)
    requires
        contains_seq(uri, friends_key()),
    ensures
        spec_classify(uri) == Some(RouteClass::Friend),
{
    reveal_strlit("/lol-matchmaking/v1/search");
    reveal_strlit("/lol-lobby-team-builder/v1/matchmaking");
    reveal_strlit("/lol-gameflow/v1/session");
    reveal_strlit("/lol-lobby/v2/lobby");
    reveal_strlit("/lol-chat/v1/friends");
    assert(friends_key().len() == 20);
    assert(friends_key()[13] == 'f');
    assert(friends_key()[14] == 'r');
    if uri == matchmaking_search_key() {
        assert(forall|i: int|
            0 <= i < matchmaking_search_key().len() ==> matchmaking_search_key()[i] != 'f');
        lemma_absent_char_no_contains(matchmaking_search_key(), friends_key(), 'f', 13);
    }
    if uri == team_builder_matchmaking_key() {
        assert(forall|i: int|
            0 <= i < team_builder_matchmaking_key().len() ==> team_builder_matchmaking_key()[i]
                != 'f');
        lemma_absent_char_no_contains(team_builder_matchmaking_key(), friends_key(), 'f', 13);
    }
    if uri == game_flow_session_key() {
        assert(forall|i: int|
            0 <= i < game_flow_session_key().len() ==> game_flow_session_key()[i] != 'r');
        lemma_absent_char_no_contains(game_flow_session_key(), friends_key(), 'r', 14);
    }
    if uri == lobby_key() {
        assert(lobby_key().len() == 19);
        assert(forall|at: int| !matches_at(lobby_key(), friends_key(), at));
    }
}

/// Whether an event kind carries the variant a route class selects.
pub open spec fn kind_matches_class(k: LeagueEventKind, c: RouteClass) -> bool {
    match c {
        RouteClass::Queue => k is Queue,
        RouteClass::GameFlow => k is GameFlow,
        RouteClass::Lobby => k is Lobby,
        RouteClass::Friend => k is Friend,
    }
}

/// Whether an event kind carries no payload.
pub open spec fn kind_payload_none(k: LeagueEventKind) -> bool {
    match k {
        LeagueEventKind::Queue(p) => p is None,
        LeagueEventKind::Lobby(p) => p is None,
        LeagueEventKind::Friend(p) => p is None,
        LeagueEventKind::GameFlow(p) => p is None,
        LeagueEventKind::ChampSelect => true,
    }
}

/// The kind, with its decoded payload, that a route class and the frame's
/// payload tree yield.
pub open spec fn spec_kind_for(c: RouteClass, data: Option<JsonV>) -> LeagueEventKindV {
    match c {
        RouteClass::Queue => LeagueEventKindV::Queue(spec_decode_queue(data)),
        RouteClass::GameFlow => LeagueEventKindV::GameFlow(spec_decode_gameflow(data)),
        RouteClass::Lobby => LeagueEventKindV::Lobby(spec_decode_lobby(data)),
        RouteClass::Friend => LeagueEventKindV::Friend(spec_decode_friend(data)),
    }
}

/// Classify a frame whose envelope was already taken apart: the routing
/// key decides the variant, the carried payload is exactly what the frame's
/// payload tree decodes to, and an event with a recognised key is forwarded
/// even when that decode fails.
pub fn classify_with_key(uri: &str, event_type: Option<EventType>, data: Option<&Value>) -> (r:
    Option<LeagueEvent>)
    ensures
        (r is Some) == (spec_classify(uri@) is Some),
        r matches Some(ev) ==> {
            &&& ev.kind is Some
            &&& ev.kind->Some_0@ == spec_kind_for(spec_classify(uri@)->Some_0, opt_ref_tree(data))
            &&& ev.event_type == event_type
            &&& ev.uri matches Some(u) && u@ == uri@
            &&& kind_matches_class(ev.kind->Some_0, spec_classify(uri@)->Some_0)
            &&& (data is None ==> kind_payload_none(ev.kind->Some_0))
        },
{
    let kind = match classify_key(uri) {
        None => {
            return None;
        },
        Some(RouteClass::Queue) => LeagueEventKind::Queue(decode_queue(data)),
        Some(RouteClass::GameFlow) => LeagueEventKind::GameFlow(decode_gameflow(data)),
        Some(RouteClass::Lobby) => LeagueEventKind::Lobby(decode_lobby(data)),
        Some(RouteClass::Friend) => LeagueEventKind::Friend(decode_friend(data)),
    };
    Some(LeagueEvent { kind: Some(kind), event_type, uri: Some(uri.to_owned()) })
}

/// The frame's envelope: the third element of the JSON triple a text
/// parses to.
pub open spec fn frame_envelope(text: Seq<char>) -> Option<JsonV> {
    match json_tree_of(text) {
        None => None,
        Some(t) => tree_index(t, 2),
    }
}

/// The frame's routing key: the `uri` member of the envelope, where it is
/// a string.
pub open spec fn frame_uri(text: Seq<char>) -> Option<Seq<char>> {
    match frame_envelope(text) {
        None => None,
        Some(env) => match tree_field(env, "uri"@) {
            None => None,
            Some(u) => tree_str(u),
        },
    }
}

/// The frame's decoded event type.
pub open spec fn frame_event_type(text: Seq<char>) -> Option<EventType> {
    match frame_envelope(text) {
        None => None,
        Some(env) => spec_decode_event_type(env),
    }
}

/// The frame's payload tree: the `data` member of the envelope.
pub open spec fn frame_data(text: Seq<char>) -> Option<JsonV> {
    match frame_envelope(text) {
        None => None,
        Some(env) => tree_field(env, "data"@),
    }
}

/// Whether a frame yields an event: it carries a routing key and that key
/// classifies.
pub open spec fn frame_classifiable(text: Seq<char>) -> bool {
    frame_uri(text) is Some && spec_classify(frame_uri(text)->Some_0) is Some
}

/// The one event a classifiable frame yields: its routing key, its decoded
/// event type, and the kind its key selects carrying what its payload tree
/// decodes to.
pub open spec fn spec_frame_event(text: Seq<char>) -> LeagueEventV {
    LeagueEventV {
        kind: Some(
            spec_kind_for(spec_classify(frame_uri(text)->Some_0)->Some_0, frame_data(text)),
        ),
        event_type: frame_event_type(text),
        uri: Some(frame_uri(text)->Some_0),
    }
}

/// Classify one raw text frame.  The frame is a JSON triple whose third
/// element carries the envelope.  Exactly the classifiable frames — those
/// carrying a routing key that classifies — yield an event, and that event
/// is the frame's classification; everything else, including a text that
/// is not well-formed JSON, is discarded.
pub fn classify_frame(text: &str) -> (r: Option<LeagueEvent>)
    ensures
        (r is Some) == frame_classifiable(text@),
        r matches Some(ev) ==> ev@ == spec_frame_event(text@) && ev.kind is Some,
{
    let v = match parse_json(text) {
        None => {
            return None;
        },
        Some(v) => v,
    };
    let elem = match json_index(&v, 2) {
        None => {
            return None;
        },
        Some(e) => e,
    };
    let uri_value = match json_field(&elem, "uri") {
        None => {
            return None;
        },
        Some(u) => u,
    };
    let uri = match json_as_str(&uri_value) {
        None => {
            return None;
        },
        Some(s) => s,
    };
    let event_type = decode_event_type(&elem);
    let data = json_field(&elem, "data");
    classify_with_key(uri.as_str(), event_type, data.as_ref())
}

} // verus!
