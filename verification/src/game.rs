//! The session state machine: the discrete lobby/queue/game phase, the
//! queue-timer sub-state and the member roster, together with the pure
//! transition functions the dispatch loop folds events with.

use vstd::prelude::*;
use crate::consts::{Division, Position, QueueId, Tier};
use crate::event::{EventType, GameFlowPhase, Member, QueueEvent};

verus! {

/// The discrete lifecycle phase of the session.  The phase meaning "in no
/// lobby at all" — the initial one — is spelled `NoLobby`.
#[derive(Debug, Clone, Copy, PartialEq, Eq, Structural)]
pub enum SearchState {
    NoLobby,
    Lobby,
    Searching,
    Found,
    ChampSelect,
    InGame,
    AfterGameLobby,
    Error,
}

impl Default for SearchState {
    fn default() -> (r: Self)
        ensures
            r == SearchState::NoLobby,
    {
        SearchState::NoLobby
    }
}

/// A member's first and second ranked-position preference.
#[derive(Debug, Clone, Copy, PartialEq, Eq, Structural)]
pub struct PositionPreference {
    pub first_preference: Option<Position>,
    pub second_preference: Option<Position>,
}

impl Default for PositionPreference {
    fn default() -> (r: Self)
        ensures
            r.first_preference is None,
            r.second_preference is None,
    {
        PositionPreference { first_preference: None, second_preference: None }
    }
}

/// Resolved ranked statistics of one queue.
#[derive(Debug, Clone, Copy, PartialEq, Eq, Structural)]
pub struct Ranked {
    pub division: Division,
    pub tier: Tier,
    pub wins: i64,
    pub losses: i64,
    pub league_points: i64,
}

/// The ranked-statistics lookup result for one identity; the roster join
/// reads the solo queue's entry.
#[derive(Debug, Clone, Copy, PartialEq, Eq, Structural)]
pub struct RankedStatus {
    pub ranked_solo: Ranked,
}

/// A member's resolved ranked statistics as the roster shows them.
#[derive(Debug, Clone, Copy, PartialEq, Eq, Structural)]
pub struct LobbyMemberRanked {
    pub division: Division,
    pub tier: Tier,
    pub wins: i64,
    pub losses: i64,
    pub lp: i64,
}

/// A lobby member joined with their ranked statistics.
#[derive(Debug, Clone, PartialEq)]
pub struct LobbyMember {
    pub name: String,
    pub ranked: LobbyMemberRanked,
    pub autofillable: bool,
    pub leader: bool,
    pub positions: PositionPreference,
    pub summoner_id: i64,
}

/// The mathematical value of a `LobbyMember`: its name as a character
/// sequence, the rest as the plain values they are.
pub ghost struct LobbyMemberV {
    pub name: Seq<char>,
    pub ranked: LobbyMemberRanked,
    pub autofillable: bool,
    pub leader: bool,
    pub positions: PositionPreference,
    pub summoner_id: i64,
}

impl View for LobbyMember {
    type V = LobbyMemberV;

    open spec fn view(&self) -> LobbyMemberV {
        LobbyMemberV {
            name: self.name@,
            ranked: self.ranked,
            autofillable: self.autofillable,
            leader: self.leader,
            positions: self.positions,
            summoner_id: self.summoner_id,
        }
    }
}

/// What joining one reported member with their ranked lookup yields: the
/// solo-queue statistics, the name if one was reported, the flags defaulted
/// to false where absent.
pub open spec fn spec_lobby_member_from(m: Member, ranked: RankedStatus) -> LobbyMemberV {
    LobbyMemberV {
        name: match m.summoner_name {
            Some(n) => n@,
            None => Seq::<char>::empty(),
        },
        ranked: LobbyMemberRanked {
            division: ranked.ranked_solo.division,
            tier: ranked.ranked_solo.tier,
            wins: ranked.ranked_solo.wins,
            losses: ranked.ranked_solo.losses,
            lp: ranked.ranked_solo.league_points,
        },
        autofillable: m.auto_fill_eligible == Some(true),
        leader: m.is_leader == Some(true),
        positions: PositionPreference {
            first_preference: m.first_position_preference,
            second_preference: m.second_position_preference,
        },
        summoner_id: m.summoner_id,
    }
}

impl LobbyMember {
    /// Join one reported member with their resolved ranked statistics.
    pub fn from(m: &Member, ranked: RankedStatus) -> (r: LobbyMember)
        ensures
            r@ == spec_lobby_member_from(*m, ranked),
    {
        let name = match &m.summoner_name {
            Some(n) => n.clone(),
            None => String::new(),
        };
        let autofillable = match m.auto_fill_eligible {
            Some(b) => b,
            None => false,
        };
        let leader = match m.is_leader {
            Some(b) => b,
            None => false,
        };
        LobbyMember {
            name,
            ranked: LobbyMemberRanked {
                division: ranked.ranked_solo.division,
                tier: ranked.ranked_solo.tier,
                wins: ranked.ranked_solo.wins,
                losses: ranked.ranked_solo.losses,
                lp: ranked.ranked_solo.league_points,
            },
            autofillable,
            leader,
            positions: PositionPreference {
                first_preference: m.first_position_preference,
                second_preference: m.second_position_preference,
            },
            summoner_id: m.summoner_id,
        }
    }
}

/// The roster snapshot a lobby event and its per-member lookups yield: the
/// members whose identity was reported and whose lookup succeeded, joined
/// in order; the rest are omitted.
pub open spec fn spec_build_roster(
    members: Seq<Member>,
    lookups: Seq<Option<RankedStatus>>,
) -> Seq<LobbyMemberV>
    decreases members.len(),
{
    if members.len() == 0 {
        Seq::<LobbyMemberV>::empty()
    } else {
        let rest = spec_build_roster(members.drop_last(), lookups.drop_last());
        if members.last().puuid is Some && lookups.last() is Some {
            rest.push(spec_lobby_member_from(members.last(), lookups.last()->Some_0))
        } else {
            rest
        }
    }
}

/// How many members had an identity and a successful lookup.
pub open spec fn spec_success_count(
    members: Seq<Member>,
    lookups: Seq<Option<RankedStatus>>,
) -> int
    decreases members.len(),
{
    if members.len() == 0 {
        0
    } else {
        spec_success_count(members.drop_last(), lookups.drop_last()) + (
        if members.last().puuid is Some && lookups.last() is Some {
            1int
        } else {
            0int
        })
    }
}

/// A member whose lookup failed is excluded and nothing else is: the
/// snapshot holds exactly one entry per successful lookup of an identified
/// member.
pub proof fn lemma_roster_counts_successes(
    members: Seq<Member>,
    lookups: Seq<Option<RankedStatus>>,
)
    requires
        members.len() == lookups.len(),
    ensures
        spec_build_roster(members, lookups).len() == spec_success_count(members, lookups),
    decreases members.len(),
{
    if members.len() > 0 {
        lemma_roster_counts_successes(members.drop_last(), lookups.drop_last());
    }
}

/// Build the roster snapshot from the members a lobby event reported and
/// the ranked lookup each identity resolved to.  `lookups[i]` is the result
/// for `members[i]`, `None` where the member had no identity or the lookup
/// failed.
pub fn build_roster(members: &Vec<Member>, lookups: &Vec<Option<RankedStatus>>) -> (r: Vec<
    LobbyMember>)
    requires
        members@.len() == lookups@.len(),
    ensures
        r@.map_values(|lm: LobbyMember| lm@) == spec_build_roster(members@, lookups@),
{
    let ghost full = spec_build_roster(members@, lookups@);
    let mut r: Vec<LobbyMember> = Vec::new();
    let mut i: usize = 0;
    while i < members.len()
        invariant
            i <= members@.len(),
            members@.len() == lookups@.len(),
            r@.map_values(|lm: LobbyMember| lm@) == spec_build_roster(
                members@.take(i as int),
                lookups@.take(i as int),
            ),
        decreases members@.len() - i,
    {
        proof {
            assert(members@.take(i + 1).drop_last() =~= members@.take(i as int));
            assert(lookups@.take(i + 1).drop_last() =~= lookups@.take(i as int));
            assert(members@.take(i + 1).last() == members@[i as int]);
            assert(lookups@.take(i + 1).last() == lookups@[i as int]);
        }
        let keep = members[i].puuid.is_some() && lookups[i].is_some();
        if keep {
            let ranked = lookups[i].unwrap();
            r.push(LobbyMember::from(&members[i], ranked));
            proof {
                assert(r@.map_values(|lm: LobbyMember| lm@) =~= spec_build_roster(
                    members@.take(i + 1),
                    lookups@.take(i + 1),
                ));
            }
        } else {
            proof {
                assert(r@.map_values(|lm: LobbyMember| lm@) =~= spec_build_roster(
                    members@.take(i + 1),
                    lookups@.take(i + 1),
                ));
            }
        }
        i += 1;
    }
    proof {
        assert(members@.take(members@.len() as int) =~= members@);
        assert(lookups@.take(lookups@.len() as int) =~= lookups@);
    }
    r
}

/// Persisted game-panel settings.
#[derive(Debug, Clone, Copy, PartialEq, Eq, Structural)]
pub struct GameConfig {
    pub auto_accept: bool,
}

impl Default for GameConfig {
    fn default() -> (r: Self)
        ensures
            r.auto_accept == false,
    {
        GameConfig { auto_accept: false }
    }
}

/// The session state the dispatch loop mutates and the UI paints: the
/// phase, the queue timers (held as raw float bits), the selected queue,
/// the local position preferences and the roster snapshot.
#[derive(Debug, Clone, PartialEq)]
pub struct Game {
    pub config: GameConfig,
    pub queue_id: Option<QueueId>,
    pub search_sate: SearchState,
    pub queue_timer: Option<u64>,
    pub estimated_queue_time: Option<u64>,
    pub positions: PositionPreference,
    pub members: Vec<LobbyMember>,
    pub select_second: bool,
}

impl Default for Game {
    /// The initial session: no phase, no timers, no members.
    fn default() -> (r: Self)
        ensures
            r.config.auto_accept == false,
            r.queue_id is None,
            r.search_sate == SearchState::NoLobby,
            r.queue_timer is None,
            r.estimated_queue_time is None,
            r.positions.first_preference is None,
            r.positions.second_preference is None,
            r.members@.len() == 0,
            r.select_second == false,
    {
        Game {
            config: GameConfig::default(),
            queue_id: None,
            search_sate: SearchState::NoLobby,
            queue_timer: None,
            estimated_queue_time: None,
            positions: PositionPreference::default(),
            members: Vec::new(),
            select_second: false,
        }
    }
}

/// The session with its roster replaced wholesale by a snapshot.
pub open spec fn spec_with_members(g: Game, members: Vec<LobbyMember>) -> Game {
    Game { members, ..g }
}

/// Replacing the roster is idempotent: the same snapshot applied twice
/// leaves the same member list as applying it once — a replace, not a
/// merge.
pub proof fn lemma_update_members_idempotent(g: Game, members: Vec<LobbyMember>)
    ensures
        spec_with_members(spec_with_members(g, members), members) == spec_with_members(g, members),
{
}

/// How a remote game-flow phase maps onto the session phase.  The map is
/// total and memoryless but for `PreEndOfGame` and `EndOfGame`, which leave
/// the session phase untouched.
pub open spec fn spec_apply_phase(phase: GameFlowPhase, current: SearchState) -> SearchState {
    match phase {
        GameFlowPhase::Lobby => SearchState::Lobby,
        GameFlowPhase::Matchmaking => SearchState::Searching,
        GameFlowPhase::ReadyCheck => SearchState::Found,
        GameFlowPhase::ChampSelect => SearchState::ChampSelect,
        GameFlowPhase::GameStart => SearchState::InGame,
        GameFlowPhase::InProgress => SearchState::InGame,
        GameFlowPhase::PreEndOfGame => current,
        GameFlowPhase::EndOfGame => current,
        GameFlowPhase::WaitingForStats => SearchState::AfterGameLobby,
        GameFlowPhase::TerminatedInError => SearchState::Error,
        GameFlowPhase::NoPhase => SearchState::NoLobby,
    }
}

/// The phase map absorbs repetition: applying the same remote phase twice
/// in a row leaves the session phase where one application put it.
pub proof fn lemma_phase_mapping_idempotent(phase: GameFlowPhase, current: SearchState)
    ensures
        spec_apply_phase(phase, spec_apply_phase(phase, current)) == spec_apply_phase(
            phase,
            current,
        ),
{
}

/// The two post-game phases never move the session phase.
pub proof fn lemma_end_of_game_is_no_transition(phase: GameFlowPhase, current: SearchState)
    requires
        phase is PreEndOfGame || phase is EndOfGame,
    ensures
        spec_apply_phase(phase, current) == current,
{
}

/// What a queue-status event does to the session: an update replaces both
/// timer fields with the payload's, a delete clears both, anything else —
/// including an update without a payload — changes nothing.
pub open spec fn spec_apply_queue_status(
    g: Game,
    event_type: Option<EventType>,
    payload: Option<QueueEvent>,
) -> Game {
    match event_type {
        Some(EventType::Update) => match payload {
            Some(q) => Game {
                queue_timer: q.time_in_queue,
                estimated_queue_time: q.estimated_queue_time,
                ..g
            },
            None => g,
        },
        Some(EventType::Delete) => Game { queue_timer: None, estimated_queue_time: None, ..g },
        _ => g,
    }
}

/// One position click toggles the local preferences: clicking a selected
/// position clears it, otherwise the click fills the first slot, then the
/// second, alternating.
pub open spec fn spec_update_position(g: Game, position: Position) -> Game {
    if g.positions.first_preference == Some(position) {
        Game {
            positions: PositionPreference {
                first_preference: None,
                ..g.positions
            },
            select_second: false,
            ..g
        }
    } else if g.positions.second_preference == Some(position) {
        Game {
            positions: PositionPreference {
                second_preference: None,
                ..g.positions
            },
            select_second: g.positions.first_preference is Some,
            ..g
        }
    } else if !g.select_second {
        Game {
            positions: PositionPreference {
                first_preference: Some(position),
                ..g.positions
            },
            select_second: true,
            ..g
        }
    } else {
        Game {
            positions: PositionPreference {
                second_preference: Some(position),
                ..g.positions
            },
            select_second: false,
            ..g
        }
    }
}

impl Game {
    /// Replace the roster wholesale with a snapshot.
    pub fn update_members(&mut self, members: Vec<LobbyMember>)
        ensures
            *final(self) == spec_with_members(*old(self), members),
    {
        self.members = members;
    }

    /// Fold a game-flow phase into the session phase.
    pub fn apply_phase(&mut self, phase: GameFlowPhase)
        ensures
            *final(self) == (Game {
                search_sate: spec_apply_phase(phase, old(self).search_sate),
                ..*old(self)
            }),
    {
        match phase {
            GameFlowPhase::Lobby => {
                self.search_sate = SearchState::Lobby;
            },
            GameFlowPhase::Matchmaking => {
                self.search_sate = SearchState::Searching;
            },
            GameFlowPhase::ReadyCheck => {
                self.search_sate = SearchState::Found;
            },
            GameFlowPhase::ChampSelect => {
                self.search_sate = SearchState::ChampSelect;
            },
            GameFlowPhase::GameStart => {
                self.search_sate = SearchState::InGame;
            },
            GameFlowPhase::InProgress => {
                self.search_sate = SearchState::InGame;
            },
            GameFlowPhase::PreEndOfGame => {},
            GameFlowPhase::EndOfGame => {},
            GameFlowPhase::WaitingForStats => {
                self.search_sate = SearchState::AfterGameLobby;
            },
            GameFlowPhase::TerminatedInError => {
                self.search_sate = SearchState::Error;
            },
            GameFlowPhase::NoPhase => {
                self.search_sate = SearchState::NoLobby;
            },
        }
    }

    /// Fold a queue-status event into the timer fields.
    pub fn apply_queue_status(&mut self, event_type: Option<EventType>, payload: Option<
        QueueEvent>)
        ensures
            *final(self) == spec_apply_queue_status(*old(self), event_type, payload),
    {
        match event_type {
            Some(EventType::Update) => {
                match payload {
                    Some(q) => {
                        self.queue_timer = q.time_in_queue;
                        self.estimated_queue_time = q.estimated_queue_time;
                    },
                    None => {},
                }
            },
            Some(EventType::Delete) => {
                self.estimated_queue_time = None;
                self.queue_timer = None;
            },
            _ => {},
        }
    }

    /// Toggle one position preference.  Returns whether the new preferences
    /// should be pushed to the remote service, which is wanted exactly
    /// while the session is in the lobby phase.
    pub fn update_position(&mut self, position: Position) -> (push_roles: bool)
        ensures
            *final(self) == spec_update_position(*old(self), position),
            push_roles == (final(self).search_sate is Lobby),
    {
        let first_is = match self.positions.first_preference {
            Some(p) => p == position,
            None => false,
        };
        let second_is = match self.positions.second_preference {
            Some(p) => p == position,
            None => false,
        };
        if first_is {
            self.positions.first_preference = None;
            self.select_second = false;
        } else if second_is {
            self.positions.second_preference = None;
            self.select_second = self.positions.first_preference.is_some();
        } else if !self.select_second {
            self.positions.first_preference = Some(position);
            self.select_second = true;
        } else {
            self.positions.second_preference = Some(position);
            self.select_second = false;
        }
        match self.search_sate {
            SearchState::Lobby => true,
            _ => false,
        }
    }

    /// Select or deselect a queue.  Selecting a new queue asks for a lobby
    /// join, clicking the selected one again clears it and asks for a
    /// leave.
    pub fn toggle_queue(&mut self, queue: QueueId) -> (leave: bool)
        ensures
            old(self).queue_id == Some(queue) ==> *final(self) == (Game {
                queue_id: None,
                ..*old(self)
            }) && leave,
            old(self).queue_id != Some(queue) ==> *final(self) == (Game {
                queue_id: Some(queue),
                ..*old(self)
            }) && !leave,
    {
        let selected = match self.queue_id {
            Some(q) => q == queue,
            None => false,
        };
        if selected {
            self.queue_id = None;
            true
        } else {
            self.queue_id = Some(queue);
            false
        }
    }

    /// The user action the post-game and error phases expose: back to no
    /// lobby.
    pub fn reset_phase(&mut self)
        ensures
            *final(self) == (Game { search_sate: SearchState::NoLobby, ..*old(self) }),
    {
        self.search_sate = SearchState::NoLobby;
    }
}

} // verus!
