use clowncher::classify::{classify_frame, classify_key, classify_with_key, RouteClass};
use clowncher::event::{EventType, LeagueEventKind};

#[test]
fn exact_keys_classify() {
    assert_eq!(
        classify_key("/lol-matchmaking/v1/search"),
        Some(RouteClass::Queue)
    );
    assert_eq!(
        classify_key("/lol-lobby-team-builder/v1/matchmaking"),
        Some(RouteClass::Queue)
    );
    assert_eq!(
        classify_key("/lol-gameflow/v1/session"),
        Some(RouteClass::GameFlow)
    );
    assert_eq!(classify_key("/lol-lobby/v2/lobby"), Some(RouteClass::Lobby));
}

#[test]
fn friends_substring_classifies() {
    assert_eq!(
        classify_key("/lol-chat/v1/friends"),
        Some(RouteClass::Friend)
    );
    assert_eq!(
        classify_key("/lol-chat/v1/friends/summoner@eu1.pvp.net"),
        Some(RouteClass::Friend)
    );
}

#[test]
fn unknown_key_discarded() {
    assert_eq!(classify_key("/lol-summoner/v1/current-summoner"), None);
    assert_eq!(classify_key(""), None);
    assert_eq!(classify_key("/lol-chat/v1/friend"), None);
}

#[test]
fn friend_event_survives_undecodable_payload() {
    // A recognised friends routing key with a payload that cannot decode
    // still yields a friend-kind event, carrying no payload.
    let frame = r#"[8,"OnJsonApiEvent",{"uri":"/lol-chat/v1/friends/abc","eventType":"Update","data":17}]"#;
    let ev = classify_frame(frame).expect("frame must classify");
    assert!(matches!(ev.kind, Some(LeagueEventKind::Friend(None))));
    assert_eq!(ev.event_type, Some(EventType::Update));
    assert_eq!(ev.uri.as_deref(), Some("/lol-chat/v1/friends/abc"));
}

#[test]
fn frame_without_uri_discarded() {
    let frame = r#"[8,"OnJsonApiEvent",{"eventType":"Update","data":{}}]"#;
    assert!(classify_frame(frame).is_none());
}

#[test]
fn frame_with_unknown_uri_discarded() {
    let frame = r#"[8,"OnJsonApiEvent",{"uri":"/lol-store/v1/catalog","eventType":"Update","data":{}}]"#;
    assert!(classify_frame(frame).is_none());
}

#[test]
fn unparsable_frame_discarded() {
    assert!(classify_frame("this is not json").is_none());
    assert!(classify_frame("").is_none());
}

#[test]
fn frame_without_third_element_discarded() {
    assert!(classify_frame("[8]").is_none());
    assert!(classify_frame("{\"uri\":\"/lol-lobby/v2/lobby\"}").is_none());
}

#[test]
fn queue_frame_decodes_timers() {
    let frame = r#"[8,"OnJsonApiEvent",{"uri":"/lol-matchmaking/v1/search","eventType":"Update","data":{"timeInQueue":12.0,"estimatedQueueTime":30.0}}]"#;
    let ev = classify_frame(frame).expect("frame must classify");
    match ev.kind {
        Some(LeagueEventKind::Queue(Some(q))) => {
            assert_eq!(q.time_in_queue, Some(12.0f64.to_bits()));
            assert_eq!(q.estimated_queue_time, Some(30.0f64.to_bits()));
        }
        other => panic!("expected a queue payload, got {:?}", other),
    }
}

#[test]
fn gameflow_frame_decodes_phase() {
    let frame = r#"[8,"OnJsonApiEvent",{"uri":"/lol-gameflow/v1/session","eventType":"Update","data":{"phase":"Matchmaking"}}]"#;
    let ev = classify_frame(frame).expect("frame must classify");
    match ev.kind {
        Some(LeagueEventKind::GameFlow(Some(f))) => {
            assert_eq!(f.phase, Some(clowncher::event::GameFlowPhase::Matchmaking));
        }
        other => panic!("expected a game-flow payload, got {:?}", other),
    }
}

#[test]
fn gameflow_unknown_phase_fails_payload_only() {
    let frame = r#"[8,"OnJsonApiEvent",{"uri":"/lol-gameflow/v1/session","eventType":"Update","data":{"phase":"SomethingNew"}}]"#;
    let ev = classify_frame(frame).expect("frame must classify");
    assert!(matches!(ev.kind, Some(LeagueEventKind::GameFlow(None))));
}

#[test]
fn lobby_frame_decodes_members() {
    let frame = r#"[8,"OnJsonApiEvent",{"uri":"/lol-lobby/v2/lobby","eventType":"Update","data":{"members":[
        {"summonerId":77,"summonerName":"alice","puuid":"p-1","isLeader":true,"autoFillEligible":false,"firstPositionPreference":"MIDDLE","secondPositionPreference":"NOPE"},
        {"summonerId":78}
    ]}}]"#;
    let ev = classify_frame(frame).expect("frame must classify");
    match ev.kind {
        Some(LeagueEventKind::Lobby(Some(lobby))) => {
            let members = lobby.members.expect("members are present");
            assert_eq!(members.len(), 2);
            assert_eq!(members[0].summoner_id, 77);
            assert_eq!(members[0].summoner_name.as_deref(), Some("alice"));
            assert_eq!(members[0].puuid.as_deref(), Some("p-1"));
            assert_eq!(members[0].is_leader, Some(true));
            assert_eq!(members[0].auto_fill_eligible, Some(false));
            assert_eq!(
                members[0].first_position_preference,
                Some(clowncher::consts::Position::MIDDLE)
            );
            // an unknown position word is unselected, as the wire treats it
            assert_eq!(
                members[0].second_position_preference,
                Some(clowncher::consts::Position::UNSELECTED)
            );
            assert_eq!(members[1].summoner_id, 78);
            assert_eq!(members[1].puuid, None);
        }
        other => panic!("expected a lobby payload, got {:?}", other),
    }
}

#[test]
fn lobby_member_without_summoner_id_fails_payload() {
    let frame = r#"[8,"OnJsonApiEvent",{"uri":"/lol-lobby/v2/lobby","eventType":"Update","data":{"members":[{"puuid":"p-1"}]}}]"#;
    let ev = classify_frame(frame).expect("frame must classify");
    assert!(matches!(ev.kind, Some(LeagueEventKind::Lobby(None))));
}

#[test]
fn friend_frame_decodes_fields() {
    let frame = r#"[8,"OnJsonApiEvent",{"uri":"/lol-chat/v1/friends/abc@x","eventType":"Update","data":{
        "id":"abc@x","name":"riotname","gameName":"ingame","icon":512,"summonerId":9,
        "availability":"dnd","lol":{"rankedLeagueTier":"GOLD","rankedLeagueDivision":"II"}}}]"#;
    let ev = classify_frame(frame).expect("frame must classify");
    match ev.kind {
        Some(LeagueEventKind::Friend(Some(f))) => {
            assert_eq!(f.id, "abc@x");
            assert_eq!(f.name, "riotname");
            assert_eq!(f.game_name, "ingame");
            assert_eq!(f.icon, 512);
            assert_eq!(f.summoner_id, 9);
            assert_eq!(f.availability.as_deref(), Some("dnd"));
            assert_eq!(f.ranked_league_tier.as_deref(), Some("GOLD"));
            assert_eq!(f.ranked_league_division.as_deref(), Some("II"));
        }
        other => panic!("expected a friend payload, got {:?}", other),
    }
}

#[test]
fn mistyped_timer_field_fails_queue_payload() {
    // A present but wrongly-typed field fails the whole payload; the event
    // still arrives, payload-less.
    let frame = r#"[8,"OnJsonApiEvent",{"uri":"/lol-matchmaking/v1/search","eventType":"Update","data":{"timeInQueue":"12.0"}}]"#;
    let ev = classify_frame(frame).expect("frame must classify");
    assert!(matches!(ev.kind, Some(LeagueEventKind::Queue(None))));
}

#[test]
fn mistyped_member_field_fails_lobby_payload() {
    let frame = r#"[8,"OnJsonApiEvent",{"uri":"/lol-lobby/v2/lobby","eventType":"Update","data":{"members":[{"summonerId":77,"puuid":5}]}}]"#;
    let ev = classify_frame(frame).expect("frame must classify");
    assert!(matches!(ev.kind, Some(LeagueEventKind::Lobby(None))));
}

#[test]
fn mistyped_rank_holder_fails_friend_payload() {
    let frame = r#"[8,"OnJsonApiEvent",{"uri":"/lol-chat/v1/friends/abc","eventType":"Update","data":{
        "id":"abc","name":"n","gameName":"g","icon":1,"summonerId":9,"lol":"GOLD"}}]"#;
    let ev = classify_frame(frame).expect("frame must classify");
    assert!(matches!(ev.kind, Some(LeagueEventKind::Friend(None))));
}

#[test]
fn event_type_words() {
    let mk = |word: &str| {
        format!(
            r#"[8,"OnJsonApiEvent",{{"uri":"/lol-lobby/v2/lobby","eventType":"{}","data":{{}}}}]"#,
            word
        )
    };
    assert_eq!(
        classify_frame(&mk("Create")).unwrap().event_type,
        Some(EventType::Create)
    );
    assert_eq!(
        classify_frame(&mk("Update")).unwrap().event_type,
        Some(EventType::Update)
    );
    assert_eq!(
        classify_frame(&mk("Delete")).unwrap().event_type,
        Some(EventType::Delete)
    );
    assert_eq!(
        classify_frame(&mk("Snapshot")).unwrap().event_type,
        Some(EventType::Other)
    );
}

#[test]
fn classify_with_key_without_data_has_empty_payload() {
    let ev = classify_with_key("/lol-gameflow/v1/session", Some(EventType::Update), None)
        .expect("recognised key must classify");
    assert!(matches!(ev.kind, Some(LeagueEventKind::GameFlow(None))));
    assert_eq!(ev.uri.as_deref(), Some("/lol-gameflow/v1/session"));
}
