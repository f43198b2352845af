//! Verified payload decoders: from an untyped JSON value to the typed event
//! payloads.  Field extraction goes through the trusted wrappers in `json`,
//! and every decoder carries an exact contract: a spec mirror over the
//! document tree says precisely which payload a given tree yields.  A field
//! that is present but of the wrong type fails the whole payload, as the
//! wire decoder this models did; a payload that cannot be decoded yields
//! `None`, never an abort, and the classifier then still forwards the
//! event without a payload.

use vstd::prelude::*;
use serde_json::Value;
use crate::consts::Position;
use crate::event::{EventType, FriendEvent, FriendEventV, GameFlowEvent, GameFlowPhase,
    LobbyEvent, LobbyEventV, Member, MemberV, QueueEvent};
use crate::json::{json_as_array, json_as_bool, json_as_float_bits, json_as_i64, json_as_str,
    json_field, json_is_object, tree_bool, tree_field, tree_float_bits, tree_i64, tree_str,
    value_tree, JsonV};
use crate::strutil::str_eq;

verus! {

/// How a wire string names an application mode for the payload: the three
/// known words, anything else degrades to `Other`.
pub open spec fn spec_parse_event_type(s: Seq<char>) -> EventType {
    if s == "Create"@ {
        EventType::Create
    } else if s == "Update"@ {
        EventType::Update
    } else if s == "Delete"@ {
        EventType::Delete
    } else {
        EventType::Other
    }
}

pub fn parse_event_type(s: &str) -> (r: EventType)
    ensures
        r == spec_parse_event_type(s@),
{
    if str_eq(s, "Create") {
        EventType::Create
    } else if str_eq(s, "Update") {
        EventType::Update
    } else if str_eq(s, "Delete") {
        EventType::Delete
    } else {
        EventType::Other
    }
}

/// How a wire string names a game-flow phase; an unknown word is no phase
/// at all, and fails the payload decode.
pub open spec fn spec_parse_phase(s: Seq<char>) -> Option<GameFlowPhase> {
    if s == "Lobby"@ {
        Some(GameFlowPhase::Lobby)
    } else if s == "Matchmaking"@ {
        Some(GameFlowPhase::Matchmaking)
    } else if s == "ReadyCheck"@ {
        Some(GameFlowPhase::ReadyCheck)
    } else if s == "ChampSelect"@ {
        Some(GameFlowPhase::ChampSelect)
    } else if s == "GameStart"@ {
        Some(GameFlowPhase::GameStart)
    } else if s == "InProgress"@ {
        Some(GameFlowPhase::InProgress)
    } else if s == "PreEndOfGame"@ {
        Some(GameFlowPhase::PreEndOfGame)
    } else if s == "EndOfGame"@ {
        Some(GameFlowPhase::EndOfGame)
    } else if s == "WaitingForStats"@ {
        Some(GameFlowPhase::WaitingForStats)
    } else if s == "TerminatedInError"@ {
        Some(GameFlowPhase::TerminatedInError)
    } else if s == "None"@ {
        Some(GameFlowPhase::NoPhase)
    } else {
        None
    }
}

pub fn parse_phase(s: &str) -> (r: Option<GameFlowPhase>)
    ensures
        r == spec_parse_phase(s@),
{
    if str_eq(s, "Lobby") {
        Some(GameFlowPhase::Lobby)
    } else if str_eq(s, "Matchmaking") {
        Some(GameFlowPhase::Matchmaking)
    } else if str_eq(s, "ReadyCheck") {
        Some(GameFlowPhase::ReadyCheck)
    } else if str_eq(s, "ChampSelect") {
        Some(GameFlowPhase::ChampSelect)
    } else if str_eq(s, "GameStart") {
        Some(GameFlowPhase::GameStart)
    } else if str_eq(s, "InProgress") {
        Some(GameFlowPhase::InProgress)
    } else if str_eq(s, "PreEndOfGame") {
        Some(GameFlowPhase::PreEndOfGame)
    } else if str_eq(s, "EndOfGame") {
        Some(GameFlowPhase::EndOfGame)
    } else if str_eq(s, "WaitingForStats") {
        Some(GameFlowPhase::WaitingForStats)
    } else if str_eq(s, "TerminatedInError") {
        Some(GameFlowPhase::TerminatedInError)
    } else if str_eq(s, "None") {
        Some(GameFlowPhase::NoPhase)
    } else {
        None
    }
}

/// How a wire string names a position; the remote service treats an unknown
/// word as unselected, and so does this.
pub open spec fn spec_parse_position(s: Seq<char>) -> Position {
    if s == "TOP"@ {
        Position::TOP
    } else if s == "JUNGLE"@ {
        Position::JUNGLE
    } else if s == "MIDDLE"@ {
        Position::MIDDLE
    } else if s == "BOTTOM"@ {
        Position::BOTTOM
    } else if s == "UTILITY"@ {
        Position::UTILITY
    } else if s == "FILL"@ {
        Position::FILL
    } else {
        Position::UNSELECTED
    }
}

pub fn parse_position(s: &str) -> (r: Position)
    ensures
        r == spec_parse_position(s@),
{
    if str_eq(s, "TOP") {
        Position::TOP
    } else if str_eq(s, "JUNGLE") {
        Position::JUNGLE
    } else if str_eq(s, "MIDDLE") {
        Position::MIDDLE
    } else if str_eq(s, "BOTTOM") {
        Position::BOTTOM
    } else if str_eq(s, "UTILITY") {
        Position::UTILITY
    } else if str_eq(s, "FILL") {
        Position::FILL
    } else {
        Position::UNSELECTED
    }
}

/// The tree an optional borrowed value holds: the spec-side shape of a
/// decoder's `data` argument.
pub open spec fn opt_ref_tree(data: Option<&Value>) -> Option<JsonV> {
    match data {
        Some(v) => Some(value_tree(*v)),
        None => None,
    }
}

/// An optional number field: absent is fine, present but not a number
/// fails.
pub open spec fn spec_opt_num_field(t: JsonV, name: Seq<char>) -> Option<Option<u64>> {
    match tree_field(t, name) {
        None => Some(None),
        Some(v) => match tree_float_bits(v) {
            None => None,
            Some(b) => Some(Some(b)),
        },
    }
}

fn opt_num_field(v: &Value, name: &str) -> (r: Option<Option<u64>>)
    ensures
        r == spec_opt_num_field(value_tree(*v), name@),
{
    match json_field(v, name) {
        None => Some(None),
        Some(x) => match json_as_float_bits(&x) {
            None => None,
            Some(b) => Some(Some(b)),
        },
    }
}

/// An optional string field: absent is fine, present but not a string
/// fails.
pub open spec fn spec_opt_str_field(t: JsonV, name: Seq<char>) -> Option<Option<Seq<char>>> {
    match tree_field(t, name) {
        None => Some(None),
        Some(v) => match tree_str(v) {
            None => None,
            Some(s) => Some(Some(s)),
        },
    }
}

fn opt_str_field(v: &Value, name: &str) -> (r: Option<Option<String>>)
    ensures
        (r is Some) == (spec_opt_str_field(value_tree(*v), name@) is Some),
        r matches Some(inner) ==> Some(crate::event::opt_chars(inner)) == spec_opt_str_field(
            value_tree(*v),
            name@,
        ),
{
    match json_field(v, name) {
        None => Some(None),
        Some(x) => match json_as_str(&x) {
            None => None,
            Some(s) => Some(Some(s)),
        },
    }
}

/// An optional boolean field: absent is fine, present but not a boolean
/// fails.
pub open spec fn spec_opt_bool_field(t: JsonV, name: Seq<char>) -> Option<Option<bool>> {
    match tree_field(t, name) {
        None => Some(None),
        Some(v) => match tree_bool(v) {
            None => None,
            Some(b) => Some(Some(b)),
        },
    }
}

fn opt_bool_field(v: &Value, name: &str) -> (r: Option<Option<bool>>)
    ensures
        r == spec_opt_bool_field(value_tree(*v), name@),
{
    match json_field(v, name) {
        None => Some(None),
        Some(x) => match json_as_bool(&x) {
            None => None,
            Some(b) => Some(Some(b)),
        },
    }
}

/// An optional position field: absent is fine, present but not a string
/// fails; an unknown position word is unselected.
pub open spec fn spec_opt_position_field(t: JsonV, name: Seq<char>) -> Option<Option<Position>> {
    match tree_field(t, name) {
        None => Some(None),
        Some(v) => match tree_str(v) {
            None => None,
            Some(s) => Some(Some(spec_parse_position(s))),
        },
    }
}

fn opt_position_field(v: &Value, name: &str) -> (r: Option<Option<Position>>)
    ensures
        r == spec_opt_position_field(value_tree(*v), name@),
{
    match json_field(v, name) {
        None => Some(None),
        Some(x) => match json_as_str(&x) {
            None => None,
            Some(s) => Some(Some(parse_position(s.as_str()))),
        },
    }
}

/// A required string field: missing or not a string fails.
pub open spec fn spec_req_str_field(t: JsonV, name: Seq<char>) -> Option<Seq<char>> {
    match tree_field(t, name) {
        None => None,
        Some(v) => tree_str(v),
    }
}

fn req_str_field(v: &Value, name: &str) -> (r: Option<String>)
    ensures
        (r is Some) == (spec_req_str_field(value_tree(*v), name@) is Some),
        r matches Some(s) ==> Some(s@) == spec_req_str_field(value_tree(*v), name@),
{
    match json_field(v, name) {
        None => None,
        Some(x) => json_as_str(&x),
    }
}

/// A required integer field: missing or not a representable integer fails.
pub open spec fn spec_req_i64_field(t: JsonV, name: Seq<char>) -> Option<i64> {
    match tree_field(t, name) {
        None => None,
        Some(v) => tree_i64(v),
    }
}

fn req_i64_field(v: &Value, name: &str) -> (r: Option<i64>)
    ensures
        r == spec_req_i64_field(value_tree(*v), name@),
{
    match json_field(v, name) {
        None => None,
        Some(x) => json_as_i64(&x),
    }
}

/// What the `eventType` member of the frame's envelope decodes to, where
/// it is a string.
pub open spec fn spec_decode_event_type(env: JsonV) -> Option<EventType> {
    match tree_field(env, "eventType"@) {
        None => None,
        Some(v) => match tree_str(v) {
            None => None,
            Some(s) => Some(spec_parse_event_type(s)),
        },
    }
}

pub(crate) fn decode_event_type(elem: &Value) -> (r: Option<EventType>)
    ensures
        r == spec_decode_event_type(value_tree(*elem)),
{
    match json_field(elem, "eventType") {
        None => None,
        Some(v) => match json_as_str(&v) {
            None => None,
            Some(s) => Some(parse_event_type(s.as_str())),
        },
    }
}

/// What a queue-status payload decodes to: the two timer fields, kept as
/// raw float bits.
pub open spec fn spec_decode_queue(data: Option<JsonV>) -> Option<QueueEvent> {
    match data {
        None => None,
        Some(t) => if t is Obj {
            match (spec_opt_num_field(t, "timeInQueue"@), spec_opt_num_field(
                t,
                "estimatedQueueTime"@,
            )) {
                (Some(time_in_queue), Some(estimated_queue_time)) => Some(
                    QueueEvent { time_in_queue, estimated_queue_time },
                ),
                _ => None,
            }
        } else {
            None
        },
    }
}

pub(crate) fn decode_queue(data: Option<&Value>) -> (r: Option<QueueEvent>)
    ensures
        r == spec_decode_queue(opt_ref_tree(data)),
{
    match data {
        None => None,
        Some(v) => {
            if !json_is_object(v) {
                return None;
            }
            let time_in_queue = match opt_num_field(v, "timeInQueue") {
                None => {
                    return None;
                },
                Some(x) => x,
            };
            let estimated_queue_time = match opt_num_field(v, "estimatedQueueTime") {
                None => {
                    return None;
                },
                Some(x) => x,
            };
            Some(QueueEvent { time_in_queue, estimated_queue_time })
        },
    }
}

/// What a game-flow payload decodes to: the carried phase.  A present but
/// unrecognised phase word fails the decode, a missing one decodes to no
/// phase.
pub open spec fn spec_decode_gameflow(data: Option<JsonV>) -> Option<GameFlowEvent> {
    match data {
        None => None,
        Some(t) => if t is Obj {
            match tree_field(t, "phase"@) {
                None => Some(GameFlowEvent { phase: None }),
                Some(pv) => match tree_str(pv) {
                    None => None,
                    Some(s) => match spec_parse_phase(s) {
                        None => None,
                        Some(p) => Some(GameFlowEvent { phase: Some(p) }),
                    },
                },
            }
        } else {
            None
        },
    }
}

pub(crate) fn decode_gameflow(data: Option<&Value>) -> (r: Option<GameFlowEvent>)
    ensures
        r == spec_decode_gameflow(opt_ref_tree(data)),
{
    match data {
        None => None,
        Some(v) => {
            if !json_is_object(v) {
                return None;
            }
            match json_field(v, "phase") {
                None => Some(GameFlowEvent { phase: None }),
                Some(pv) => match json_as_str(&pv) {
                    None => None,
                    Some(s) => match parse_phase(s.as_str()) {
                        None => None,
                        Some(p) => Some(GameFlowEvent { phase: Some(p) }),
                    },
                },
            }
        },
    }
}

/// What one member of a lobby payload decodes to.  The summoner id is
/// required; the other fields are optional but must be well-typed where
/// present.
pub open spec fn spec_decode_member(t: JsonV) -> Option<MemberV> {
    if !(t is Obj) {
        None
    } else {
        match spec_req_i64_field(t, "summonerId"@) {
            None => None,
            Some(summoner_id) => match (
                spec_opt_str_field(t, "puuid"@),
                spec_opt_str_field(t, "summonerName"@),
                spec_opt_bool_field(t, "autoFillEligible"@),
                spec_opt_bool_field(t, "isLeader"@),
                spec_opt_position_field(t, "firstPositionPreference"@),
                spec_opt_position_field(t, "secondPositionPreference"@),
            ) {
                (
                    Some(puuid),
                    Some(summoner_name),
                    Some(auto_fill_eligible),
                    Some(is_leader),
                    Some(first_position_preference),
                    Some(second_position_preference),
                ) => Some(
                    MemberV {
                        auto_fill_eligible,
                        first_position_preference,
                        second_position_preference,
                        is_leader,
                        puuid,
                        summoner_id,
                        summoner_name,
                    },
                ),
                _ => None,
            },
        }
    }
}

pub(crate) fn decode_member(v: &Value) -> (r: Option<Member>)
    ensures
        (r is Some) == (spec_decode_member(value_tree(*v)) is Some),
        r matches Some(m) ==> Some(m@) == spec_decode_member(value_tree(*v)),
{
    if !json_is_object(v) {
        return None;
    }
    let summoner_id = match req_i64_field(v, "summonerId") {
        None => {
            return None;
        },
        Some(n) => n,
    };
    let puuid = match opt_str_field(v, "puuid") {
        None => {
            return None;
        },
        Some(x) => x,
    };
    let summoner_name = match opt_str_field(v, "summonerName") {
        None => {
            return None;
        },
        Some(x) => x,
    };
    let auto_fill_eligible = match opt_bool_field(v, "autoFillEligible") {
        None => {
            return None;
        },
        Some(x) => x,
    };
    let is_leader = match opt_bool_field(v, "isLeader") {
        None => {
            return None;
        },
        Some(x) => x,
    };
    let first_position_preference = match opt_position_field(v, "firstPositionPreference") {
        None => {
            return None;
        },
        Some(x) => x,
    };
    let second_position_preference = match opt_position_field(v, "secondPositionPreference") {
        None => {
            return None;
        },
        Some(x) => x,
    };
    Some(
        Member {
            auto_fill_eligible,
            first_position_preference,
            second_position_preference,
            is_leader,
            puuid,
            summoner_id,
            summoner_name,
        },
    )
}

/// What a member array decodes to: every member in order, or nothing if
/// any one of them fails.
pub open spec fn spec_decode_members(s: Seq<JsonV>) -> Option<Seq<MemberV>>
    decreases s.len(),
{
    if s.len() == 0 {
        Some(Seq::<MemberV>::empty())
    } else {
        match (spec_decode_members(s.drop_last()), spec_decode_member(s.last())) {
            (Some(rest), Some(m)) => Some(rest.push(m)),
            _ => None,
        }
    }
}

/// A failed prefix fails the whole member array.
proof fn lemma_decode_members_prefix_none(s: Seq<JsonV>, i: int)
    requires
        0 <= i <= s.len(),
        spec_decode_members(s.take(i)) is None,
    ensures
        spec_decode_members(s) is None,
    decreases s.len() - i,
{
    if i < s.len() {
        assert(s.take(i + 1).drop_last() =~= s.take(i));
        lemma_decode_members_prefix_none(s, i + 1);
    } else {
        assert(s.take(i) =~= s);
    }
}

/// What a lobby payload decodes to: the member list, taken whole or not at
/// all.
pub open spec fn spec_decode_lobby(data: Option<JsonV>) -> Option<LobbyEventV> {
    match data {
        None => None,
        Some(t) => if t is Obj {
            match tree_field(t, "members"@) {
                None => Some(LobbyEventV { members: None }),
                Some(mv) => match mv {
                    JsonV::Arr(arr) => match spec_decode_members(arr) {
                        Some(ms) => Some(LobbyEventV { members: Some(ms) }),
                        None => None,
                    },
                    _ => None,
                },
            }
        } else {
            None
        },
    }
}

pub(crate) fn decode_lobby(data: Option<&Value>) -> (r: Option<LobbyEvent>)
    ensures
        (r is Some) == (spec_decode_lobby(opt_ref_tree(data)) is Some),
        r matches Some(l) ==> Some(l@) == spec_decode_lobby(opt_ref_tree(data)),
{
    match data {
        None => None,
        Some(v) => {
            if !json_is_object(v) {
                return None;
            }
            match json_field(v, "members") {
                None => Some(LobbyEvent { members: None }),
                Some(mv) => match json_as_array(&mv) {
                    None => None,
                    Some(arr) => {
                        let ghost trees = value_tree(mv)->Arr_0;
                        let mut members: Vec<Member> = Vec::new();
                        let mut i: usize = 0;
                        proof {
                            assert(spec_decode_members(trees) is None ==> spec_decode_lobby(
                                opt_ref_tree(data),
                            ) is None);
                        }
                        while i < arr.len()
                            invariant
                                i <= arr@.len(),
                                arr@.len() == trees.len(),
                                forall|k: int|
                                    0 <= k < arr@.len() ==> value_tree(arr@[k]) == trees[k],
                                spec_decode_members(trees.take(i as int)) == Some(
                                    members@.map_values(|m: Member| m@),
                                ),
                                spec_decode_members(trees) is None ==> spec_decode_lobby(
                                    opt_ref_tree(data),
                                ) is None,
                                spec_decode_members(trees) matches Some(ms) ==> spec_decode_lobby(
                                    opt_ref_tree(data),
                                ) == Some(LobbyEventV { members: Some(ms) }),
                            decreases arr@.len() - i,
                        {
                            proof {
                                assert(trees.take(i + 1).drop_last() =~= trees.take(i as int));
                                assert(trees.take(i + 1).last() == trees[i as int]);
                            }
                            match decode_member(&arr[i]) {
                                None => {
                                    proof {
                                        assert(value_tree(arr@[i as int]) == trees[i as int]);
                                        assert(spec_decode_member(trees[i as int]) is None);
                                        assert(spec_decode_members(trees.take(i + 1)) is None);
                                        lemma_decode_members_prefix_none(trees, i + 1);
                                        assert(spec_decode_members(trees) is None);
                                        assert(spec_decode_lobby(opt_ref_tree(data)) is None);
                                    }
                                    return None;
                                },
                                Some(m) => {
                                    members.push(m);
                                    proof {
                                        assert(members@.map_values(|m: Member| m@)
                                            =~= members@.drop_last().map_values(
                                            |m: Member| m@,
                                        ).push(members@.last()@));
                                    }
                                },
                            }
                            i += 1;
                        }
                        proof {
                            assert(trees.take(trees.len() as int) =~= trees);
                        }
                        Some(LobbyEvent { members: Some(members) })
                    },
                },
            }
        },
    }
}

/// What a friend-presence payload decodes to.  Identity, names, icon and
/// summoner id are required, the presence and rank fields optional but
/// well-typed where present; the rank sub-object must be an object.
pub open spec fn spec_decode_friend(data: Option<JsonV>) -> Option<FriendEventV> {
    match data {
        None => None,
        Some(t) => if !(t is Obj) {
            None
        } else {
            match (
                spec_req_str_field(t, "id"@),
                spec_req_str_field(t, "name"@),
                spec_req_str_field(t, "gameName"@),
                spec_req_i64_field(t, "icon"@),
                spec_req_i64_field(t, "summonerId"@),
                spec_opt_str_field(t, "availability"@),
            ) {
                (Some(id), Some(name), Some(game_name), Some(icon), Some(summoner_id), Some(
                    availability,
                )) => {
                    if icon < i32::MIN as i64 || icon > i32::MAX as i64 {
                        None
                    } else {
                        match tree_field(t, "lol"@) {
                            None => None,
                            Some(lol) => if !(lol is Obj) {
                                None
                            } else {
                                match (
                                    spec_opt_str_field(lol, "rankedLeagueTier"@),
                                    spec_opt_str_field(lol, "rankedLeagueDivision"@),
                                ) {
                                    (Some(ranked_league_tier), Some(ranked_league_division)) => Some(
                                        FriendEventV {
                                            availability,
                                            game_name,
                                            icon: icon as i32,
                                            id,
                                            name,
                                            ranked_league_division,
                                            ranked_league_tier,
                                            summoner_id,
                                        },
                                    ),
                                    _ => None,
                                }
                            },
                        }
                    }
                },
                _ => None,
            }
        },
    }
}

pub(crate) fn decode_friend(data: Option<&Value>) -> (r: Option<FriendEvent>)
    ensures
        (r is Some) == (spec_decode_friend(opt_ref_tree(data)) is Some),
        r matches Some(f) ==> Some(f@) == spec_decode_friend(opt_ref_tree(data)),
{
    match data {
        None => None,
        Some(v) => {
            if !json_is_object(v) {
                return None;
            }
            let id = match req_str_field(v, "id") {
                None => {
                    return None;
                },
                Some(s) => s,
            };
            let name = match req_str_field(v, "name") {
                None => {
                    return None;
                },
                Some(s) => s,
            };
            let game_name = match req_str_field(v, "gameName") {
                None => {
                    return None;
                },
                Some(s) => s,
            };
            let icon_wide = match req_i64_field(v, "icon") {
                None => {
                    return None;
                },
                Some(n) => n,
            };
            let summoner_id = match req_i64_field(v, "summonerId") {
                None => {
                    return None;
                },
                Some(n) => n,
            };
            let availability = match opt_str_field(v, "availability") {
                None => {
                    return None;
                },
                Some(x) => x,
            };
            if icon_wide < i32::MIN as i64 || icon_wide > i32::MAX as i64 {
                return None;
            }
            let icon: i32 = icon_wide as i32;
            let lol = match json_field(v, "lol") {
                None => {
                    return None;
                },
                Some(x) => x,
            };
            if !json_is_object(&lol) {
                return None;
            }
            let ranked_league_tier = match opt_str_field(&lol, "rankedLeagueTier") {
                None => {
                    return None;
                },
                Some(x) => x,
            };
            let ranked_league_division = match opt_str_field(&lol, "rankedLeagueDivision") {
                None => {
                    return None;
                },
                Some(x) => x,
            };
            Some(
                FriendEvent {
                    availability,
                    game_name,
                    icon,
                    id,
                    name,
                    ranked_league_division,
                    ranked_league_tier,
                    summoner_id,
                },
            )
        },
    }
}

} // verus!
