use clowncher::classify::classify_frame;
use clowncher::consts::{Division, Position, QueueId, Tier};
use clowncher::dispatch::{apply_roster, dispatch_step, DispatchOutcome};
use clowncher::event::{Event, EventType, GameFlowPhase, Member, QueueEvent};
use clowncher::friendlist::Friendlist;
use clowncher::game::{build_roster, Game, LobbyMember, Ranked, RankedStatus, SearchState};

fn fresh() -> (Game, Friendlist) {
    (Game::default(), Friendlist::default())
}

fn member(summoner_id: i64, puuid: Option<&str>, name: &str) -> Member {
    Member {
        auto_fill_eligible: Some(false),
        first_position_preference: Some(Position::TOP),
        second_position_preference: Some(Position::JUNGLE),
        is_leader: Some(false),
        puuid: puuid.map(|p| p.to_string()),
        summoner_id,
        summoner_name: Some(name.to_string()),
    }
}

fn ranked(points: i64) -> RankedStatus {
    RankedStatus {
        ranked_solo: Ranked {
            division: Division::II,
            tier: Tier::Gold,
            wins: 10,
            losses: 5,
            league_points: points,
        },
    }
}

#[test]
fn initial_session_is_empty() {
    let g = Game::default();
    assert_eq!(g.search_sate, SearchState::NoLobby);
    assert_eq!(g.queue_timer, None);
    assert_eq!(g.estimated_queue_time, None);
    assert_eq!(g.queue_id, None);
    assert!(g.members.is_empty());
    assert!(!g.select_second);
}

#[test]
fn queue_update_then_delete_end_to_end() {
    // Feed an update carrying 12.0 in queue and 30.0 estimated, then a
    // delete: the two timer fields are set, then both cleared.
    let (mut g, mut fl) = fresh();
    let update = r#"[8,"OnJsonApiEvent",{"uri":"/lol-matchmaking/v1/search","eventType":"Update","data":{"timeInQueue":12.0,"estimatedQueueTime":30.0}}]"#;
    let ev = classify_frame(update).unwrap();
    let out = dispatch_step(&mut g, &mut fl, Event::LeagueEvent(0, ev));
    assert_eq!(g.queue_timer, Some(12.0f64.to_bits()));
    assert_eq!(g.estimated_queue_time, Some(30.0f64.to_bits()));
    assert_eq!(out.read_socket, Some(0));
    assert!(out.repaint);

    let delete = r#"[8,"OnJsonApiEvent",{"uri":"/lol-matchmaking/v1/search","eventType":"Delete","data":{}}]"#;
    let ev = classify_frame(delete).unwrap();
    dispatch_step(&mut g, &mut fl, Event::LeagueEvent(0, ev));
    assert_eq!(g.queue_timer, None);
    assert_eq!(g.estimated_queue_time, None);
}

#[test]
fn queue_update_without_payload_changes_nothing() {
    let (mut g, mut fl) = fresh();
    g.apply_queue_status(
        Some(EventType::Update),
        Some(QueueEvent {
            time_in_queue: Some(1.5f64.to_bits()),
            estimated_queue_time: None,
        }),
    );
    assert_eq!(g.queue_timer, Some(1.5f64.to_bits()));
    g.apply_queue_status(Some(EventType::Update), None);
    assert_eq!(g.queue_timer, Some(1.5f64.to_bits()));
    g.apply_queue_status(Some(EventType::Create), None);
    assert_eq!(g.queue_timer, Some(1.5f64.to_bits()));
    let _ = fl;
}

#[test]
fn gameflow_matchmaking_then_ready_check_end_to_end() {
    // Matchmaking moves the session to searching, ready check to found.
    let (mut g, mut fl) = fresh();
    let search = r#"[8,"OnJsonApiEvent",{"uri":"/lol-gameflow/v1/session","eventType":"Update","data":{"phase":"Matchmaking"}}]"#;
    let ev = classify_frame(search).unwrap();
    dispatch_step(&mut g, &mut fl, Event::LeagueEvent(0, ev));
    assert_eq!(g.search_sate, SearchState::Searching);

    let found = r#"[8,"OnJsonApiEvent",{"uri":"/lol-gameflow/v1/session","eventType":"Update","data":{"phase":"ReadyCheck"}}]"#;
    let ev = classify_frame(found).unwrap();
    dispatch_step(&mut g, &mut fl, Event::LeagueEvent(0, ev));
    assert_eq!(g.search_sate, SearchState::Found);
}

#[test]
fn end_of_game_phases_change_nothing() {
    // Starting in champion select, the two post-game phases leave the
    // session phase exactly where it was.
    let mut g = Game::default();
    g.apply_phase(GameFlowPhase::ChampSelect);
    assert_eq!(g.search_sate, SearchState::ChampSelect);
    g.apply_phase(GameFlowPhase::PreEndOfGame);
    assert_eq!(g.search_sate, SearchState::ChampSelect);
    g.apply_phase(GameFlowPhase::EndOfGame);
    assert_eq!(g.search_sate, SearchState::ChampSelect);
}

#[test]
fn phase_table_is_total() {
    let cases = [
        (GameFlowPhase::Lobby, SearchState::Lobby),
        (GameFlowPhase::Matchmaking, SearchState::Searching),
        (GameFlowPhase::ReadyCheck, SearchState::Found),
        (GameFlowPhase::ChampSelect, SearchState::ChampSelect),
        (GameFlowPhase::GameStart, SearchState::InGame),
        (GameFlowPhase::InProgress, SearchState::InGame),
        (GameFlowPhase::WaitingForStats, SearchState::AfterGameLobby),
        (GameFlowPhase::TerminatedInError, SearchState::Error),
        (GameFlowPhase::NoPhase, SearchState::NoLobby),
    ];
    for (phase, want) in cases {
        let mut g = Game::default();
        g.apply_phase(GameFlowPhase::ChampSelect);
        g.apply_phase(phase);
        assert_eq!(g.search_sate, want);
        // applying the same phase twice leaves the phase where one
        // application put it
        g.apply_phase(phase);
        assert_eq!(g.search_sate, want);
    }
}

#[test]
fn roster_excludes_failed_lookups() {
    // Three members: one resolves, one lookup fails, one has no identity.
    // The snapshot holds exactly the resolved one.
    let members = vec![
        member(1, Some("p-1"), "alice"),
        member(2, Some("p-2"), "bob"),
        member(3, None, "carol"),
    ];
    let lookups = vec![Some(ranked(42)), None, None];
    let roster = build_roster(&members, &lookups);
    assert_eq!(roster.len(), 1);
    assert_eq!(roster[0].name, "alice");
    assert_eq!(roster[0].summoner_id, 1);
    assert_eq!(roster[0].ranked.lp, 42);
    assert_eq!(roster[0].ranked.tier, Tier::Gold);
    assert_eq!(roster[0].ranked.division, Division::II);
}

#[test]
fn roster_count_equals_successful_lookups() {
    let members = vec![
        member(1, Some("p-1"), "a"),
        member(2, Some("p-2"), "b"),
        member(3, Some("p-3"), "c"),
    ];
    let lookups = vec![Some(ranked(1)), Some(ranked(2)), None];
    assert_eq!(build_roster(&members, &lookups).len(), 2);
}

#[test]
fn roster_replace_is_idempotent() {
    // Applying the same snapshot twice yields an identical member list.
    let members = vec![member(1, Some("p-1"), "a"), member(2, Some("p-2"), "b")];
    let lookups = vec![Some(ranked(7)), Some(ranked(8))];
    let snapshot = build_roster(&members, &lookups);

    let mut g = Game::default();
    g.update_members(snapshot.clone());
    let once = g.members.clone();
    g.update_members(snapshot.clone());
    assert_eq!(g.members, once);
}

#[test]
fn lobby_event_hands_members_back_for_lookup() {
    let (mut g, mut fl) = fresh();
    let frame = r#"[8,"OnJsonApiEvent",{"uri":"/lol-lobby/v2/lobby","eventType":"Update","data":{"members":[{"summonerId":5,"puuid":"p-5","summonerName":"dana"}]}}]"#;
    let ev = classify_frame(frame).unwrap();
    let out = dispatch_step(&mut g, &mut fl, Event::LeagueEvent(0, ev));
    let members = out.lookup_members.expect("lobby event reports members");
    assert_eq!(members.len(), 1);
    assert_eq!(members[0].summoner_id, 5);
    assert!(g.members.is_empty());

    let lookups = vec![Some(ranked(11))];
    apply_roster(&mut g, &members, &lookups);
    assert_eq!(g.members.len(), 1);
    assert_eq!(g.members[0].name, "dana");
}

#[test]
fn lobby_member_defaults() {
    let m = Member {
        auto_fill_eligible: None,
        first_position_preference: None,
        second_position_preference: None,
        is_leader: None,
        puuid: Some("p".to_string()),
        summoner_id: 4,
        summoner_name: None,
    };
    let lm = LobbyMember::from(&m, ranked(0));
    assert_eq!(lm.name, "");
    assert!(!lm.autofillable);
    assert!(!lm.leader);
    assert_eq!(lm.positions.first_preference, None);
    assert_eq!(lm.positions.second_preference, None);
}

#[test]
fn dispatch_control_messages() {
    let (mut g, mut fl) = fresh();
    let out = dispatch_step(&mut g, &mut fl, Event::Ready);
    assert_eq!(out.read_socket, Some(0));
    assert!(!out.repaint);

    let out = dispatch_step(&mut g, &mut fl, Event::SocketCreated(3));
    assert_eq!(out.read_socket, Some(3));

    let out = dispatch_step(&mut g, &mut fl, Event::LeagueEventEmpty(2));
    assert_eq!(out.read_socket, Some(2));
    assert!(!out.repaint);

    let out: DispatchOutcome = dispatch_step(&mut g, &mut fl, Event::CreateSocket(1));
    assert_eq!(out.read_socket, None);
}

#[test]
fn position_clicks_toggle_preferences() {
    let mut g = Game::default();
    g.update_position(Position::TOP);
    assert_eq!(g.positions.first_preference, Some(Position::TOP));
    assert!(g.select_second);

    g.update_position(Position::JUNGLE);
    assert_eq!(g.positions.second_preference, Some(Position::JUNGLE));
    assert!(!g.select_second);

    // clicking a selected position clears it
    g.update_position(Position::TOP);
    assert_eq!(g.positions.first_preference, None);
    assert!(!g.select_second);

    g.update_position(Position::MIDDLE);
    assert_eq!(g.positions.first_preference, Some(Position::MIDDLE));

    // roles are pushed to the service only while in the lobby phase
    g.apply_phase(GameFlowPhase::Lobby);
    assert!(g.update_position(Position::BOTTOM));
    g.apply_phase(GameFlowPhase::Matchmaking);
    assert!(!g.update_position(Position::BOTTOM));
}

#[test]
fn queue_toggle_joins_and_leaves() {
    let mut g = Game::default();
    let leave = g.toggle_queue(QueueId::Solo);
    assert!(!leave);
    assert_eq!(g.queue_id, Some(QueueId::Solo));

    let leave = g.toggle_queue(QueueId::Draft);
    assert!(!leave);
    assert_eq!(g.queue_id, Some(QueueId::Draft));

    let leave = g.toggle_queue(QueueId::Draft);
    assert!(leave);
    assert_eq!(g.queue_id, None);
}

#[test]
fn post_game_reset_returns_home() {
    let mut g = Game::default();
    g.apply_phase(GameFlowPhase::WaitingForStats);
    assert_eq!(g.search_sate, SearchState::AfterGameLobby);
    g.reset_phase();
    assert_eq!(g.search_sate, SearchState::NoLobby);

    g.apply_phase(GameFlowPhase::TerminatedInError);
    assert_eq!(g.search_sate, SearchState::Error);
    g.reset_phase();
    assert_eq!(g.search_sate, SearchState::NoLobby);
}
