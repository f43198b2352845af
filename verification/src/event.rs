//! The typed event model: wire events classified from the stream, and the
//! control messages exchanged between the dispatch loop and the relay worker.

use vstd::prelude::*;
use crate::consts::Position;

verus! {

/// How an event's payload is to be applied: create or update replace the
/// carried fields, delete clears them.  Unrecognised wire values map to
/// `Other`.
#[derive(Debug, Clone, Copy, PartialEq, Eq, Structural)]
pub enum EventType {
    Create,
    Update,
    Delete,
    Other,
}

/// The lifecycle phase carried by a game-flow event, as the remote service
/// names them.  The wire value `"None"` (no session running) is spelled
/// `NoPhase` here.
#[derive(Debug, Clone, Copy, PartialEq, Eq, Structural)]
pub enum GameFlowPhase {
    Lobby,
    Matchmaking,
    ReadyCheck,
    ChampSelect,
    GameStart,
    InProgress,
    PreEndOfGame,
    EndOfGame,
    WaitingForStats,
    TerminatedInError,
    NoPhase,
}

/// Payload of a queue-status event.  The two times are carried as the raw
/// IEEE-754 bit pattern of the wire's floating-point seconds: the session
/// logic only stores and clears them, it never computes with them.
#[derive(Debug, Clone, PartialEq, Eq, Structural)]
pub struct QueueEvent {
    pub time_in_queue: Option<u64>,
    pub estimated_queue_time: Option<u64>,
}

/// Payload of a game-flow event.
#[derive(Debug, Clone, PartialEq, Eq, Structural)]
pub struct GameFlowEvent {
    pub phase: Option<GameFlowPhase>,
}

/// A lobby member as the lobby event reports it.
#[derive(Debug, Clone, PartialEq)]
pub struct Member {
    pub auto_fill_eligible: Option<bool>,
    pub first_position_preference: Option<Position>,
    pub second_position_preference: Option<Position>,
    pub is_leader: Option<bool>,
    pub puuid: Option<String>,
    pub summoner_id: i64,
    pub summoner_name: Option<String>,
}

/// Payload of a lobby event.
#[derive(Debug, Clone, PartialEq)]
pub struct LobbyEvent {
    pub members: Option<Vec<Member>>,
}

/// Payload of a friend-presence event.
#[derive(Debug, Clone, PartialEq)]
pub struct FriendEvent {
    pub availability: Option<String>,
    pub game_name: String,
    pub icon: i32,
    pub id: String,
    pub name: String,
    pub ranked_league_division: Option<String>,
    pub ranked_league_tier: Option<String>,
    pub summoner_id: i64,
}

/// Which typed variant a frame was classified into, each optionally carrying
/// its decoded payload.  A recognised routing key with an undecodable payload
/// still yields the variant, with `None` inside.
#[derive(Debug, Clone, PartialEq)]
pub enum LeagueEventKind {
    Queue(Option<QueueEvent>),
    Lobby(Option<LobbyEvent>),
    Friend(Option<FriendEvent>),
    GameFlow(Option<GameFlowEvent>),
    ChampSelect,
}

/// A classified stream event.  `kind` is `None` only before classification;
/// the classifier never forwards such an event.
#[derive(Debug, Clone, PartialEq)]
pub struct LeagueEvent {
    pub kind: Option<LeagueEventKind>,
    pub event_type: Option<EventType>,
    pub uri: Option<String>,
}

/// The value an optional string holds.
pub open spec fn opt_chars(s: Option<String>) -> Option<Seq<char>> {
    match s {
        Some(x) => Some(x@),
        None => None,
    }
}

/// The mathematical value of a `Member`.
pub ghost struct MemberV {
    pub auto_fill_eligible: Option<bool>,
    pub first_position_preference: Option<Position>,
    pub second_position_preference: Option<Position>,
    pub is_leader: Option<bool>,
    pub puuid: Option<Seq<char>>,
    pub summoner_id: i64,
    pub summoner_name: Option<Seq<char>>,
}

impl View for Member {
    type V = MemberV;

    open spec fn view(&self) -> MemberV {
        MemberV {
            auto_fill_eligible: self.auto_fill_eligible,
            first_position_preference: self.first_position_preference,
            second_position_preference: self.second_position_preference,
            is_leader: self.is_leader,
            puuid: opt_chars(self.puuid),
            summoner_id: self.summoner_id,
            summoner_name: opt_chars(self.summoner_name),
        }
    }
}

/// The mathematical value of a `LobbyEvent`.
pub ghost struct LobbyEventV {
    pub members: Option<Seq<MemberV>>,
}

impl View for LobbyEvent {
    type V = LobbyEventV;

    open spec fn view(&self) -> LobbyEventV {
        LobbyEventV {
            members: match self.members {
                Some(v) => Some(v@.map_values(|m: Member| m@)),
                None => None,
            },
        }
    }
}

/// The mathematical value of a `FriendEvent`.
pub ghost struct FriendEventV {
    pub availability: Option<Seq<char>>,
    pub game_name: Seq<char>,
    pub icon: i32,
    pub id: Seq<char>,
    pub name: Seq<char>,
    pub ranked_league_division: Option<Seq<char>>,
    pub ranked_league_tier: Option<Seq<char>>,
    pub summoner_id: i64,
}

impl View for FriendEvent {
    type V = FriendEventV;

    open spec fn view(&self) -> FriendEventV {
        FriendEventV {
            availability: opt_chars(self.availability),
            game_name: self.game_name@,
            icon: self.icon,
            id: self.id@,
            name: self.name@,
            ranked_league_division: opt_chars(self.ranked_league_division),
            ranked_league_tier: opt_chars(self.ranked_league_tier),
            summoner_id: self.summoner_id,
        }
    }
}

/// The mathematical value of a `LeagueEventKind`; queue and game-flow
/// payloads are plain values already.
pub ghost enum LeagueEventKindV {
    Queue(Option<QueueEvent>),
    Lobby(Option<LobbyEventV>),
    Friend(Option<FriendEventV>),
    GameFlow(Option<GameFlowEvent>),
    ChampSelect,
}

impl View for LeagueEventKind {
    type V = LeagueEventKindV;

    open spec fn view(&self) -> LeagueEventKindV {
        match self {
            LeagueEventKind::Queue(q) => LeagueEventKindV::Queue(*q),
            LeagueEventKind::Lobby(l) => LeagueEventKindV::Lobby(
                match l {
                    Some(e) => Some(e@),
                    None => None,
                },
            ),
            LeagueEventKind::Friend(f) => LeagueEventKindV::Friend(
                match f {
                    Some(e) => Some(e@),
                    None => None,
                },
            ),
            LeagueEventKind::GameFlow(g) => LeagueEventKindV::GameFlow(*g),
            LeagueEventKind::ChampSelect => LeagueEventKindV::ChampSelect,
        }
    }
}

/// The mathematical value of a `LeagueEvent`.
pub ghost struct LeagueEventV {
    pub kind: Option<LeagueEventKindV>,
    pub event_type: Option<EventType>,
    pub uri: Option<Seq<char>>,
}

impl View for LeagueEvent {
    type V = LeagueEventV;

    open spec fn view(&self) -> LeagueEventV {
        LeagueEventV {
            kind: match self.kind {
                Some(k) => Some(k@),
                None => None,
            },
            event_type: self.event_type,
            uri: opt_chars(self.uri),
        }
    }
}

/// Control messages between the dispatch loop and the relay worker.
/// The dispatcher sends `CreateSocket`, `ReadSocket` and `DeleteSocket`;
/// the worker answers with the rest.
#[derive(Debug, Clone, PartialEq)]
pub enum Event {
    CreateSocket(i32),
    SocketCreated(i32),
    DeleteSocket(i32),
    ReadSocket(i32),
    LeagueEvent(i32, LeagueEvent),
    LeagueEventEmpty(i32),
    Ready,
}

} // verus!
