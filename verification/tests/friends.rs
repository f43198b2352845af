use clowncher::event::FriendEvent;
use clowncher::friendlist::{FriendListEntry, Friendlist, Status};

fn presence(id: &str, name: &str, availability: Option<&str>) -> FriendEvent {
    FriendEvent {
        availability: availability.map(|a| a.to_string()),
        game_name: name.to_string(),
        icon: 1,
        id: id.to_string(),
        name: format!("{}#tag", name),
        ranked_league_division: Some("I".to_string()),
        ranked_league_tier: Some("SILVER".to_string()),
        summoner_id: 10,
    }
}

#[test]
fn status_words() {
    assert_eq!(Status::from(Some("away".to_string())), Status::Away);
    assert_eq!(Status::from(Some("mobile".to_string())), Status::Mobile);
    assert_eq!(Status::from(Some("dnd".to_string())), Status::Ingame);
    assert_eq!(Status::from(Some("chat".to_string())), Status::Idle);
    assert_eq!(Status::from(Some("offline".to_string())), Status::Offline);
    assert_eq!(Status::from(Some("sleeping".to_string())), Status::Other);
    assert_eq!(Status::from(None), Status::Other);
}

#[test]
fn entry_from_presence_event() {
    let e = FriendListEntry::from(presence("id-1", "alice", Some("chat")));
    assert_eq!(e.name, "alice");
    assert_eq!(e.riot_name, "alice#tag");
    assert_eq!(e.status, Status::Idle);
    assert_eq!(e.rank.tier.as_deref(), Some("SILVER"));
    assert_eq!(e.rank.division.as_deref(), Some("I"));
    assert_eq!(e.id, "id-1");
    assert_eq!(e.summoner_id, 10);
}

#[test]
fn upsert_replaces_existing_identity_once() {
    // A roster holding identity A once: an update for A replaces the entry
    // exactly once — no duplicate, same length, new status.
    let mut fl = Friendlist::default();
    fl.update(presence("A", "alice", Some("chat")));
    fl.update(presence("B", "bob", Some("away")));
    assert_eq!(fl.friends.len(), 2);

    fl.update(presence("A", "alice", Some("offline")));
    assert_eq!(fl.friends.len(), 2);
    let with_a: Vec<&FriendListEntry> = fl.friends.iter().filter(|f| f.id == "A").collect();
    assert_eq!(with_a.len(), 1);
    assert_eq!(with_a[0].status, Status::Offline);
}

#[test]
fn upsert_appends_new_identity() {
    let mut fl = Friendlist::default();
    fl.update(presence("A", "alice", Some("chat")));
    assert_eq!(fl.friends.len(), 1);
    fl.update(presence("B", "bob", None));
    assert_eq!(fl.friends.len(), 2);
}

#[test]
fn list_stays_sorted_by_status() {
    let mut fl = Friendlist::default();
    fl.update(presence("A", "alice", Some("offline")));
    fl.update(presence("B", "bob", Some("chat")));
    fl.update(presence("C", "carol", Some("dnd")));
    fl.update(presence("D", "dan", Some("away")));
    let statuses: Vec<Status> = fl.friends.iter().map(|f| f.status).collect();
    assert_eq!(
        statuses,
        vec![Status::Idle, Status::Away, Status::Ingame, Status::Offline]
    );
}

#[test]
fn reload_replaces_and_sorts() {
    let mut fl = Friendlist::default();
    fl.update(presence("old", "gone", Some("chat")));
    fl.reload(vec![
        presence("X", "xena", Some("offline")),
        presence("Y", "yara", Some("chat")),
    ]);
    assert_eq!(fl.friends.len(), 2);
    assert_eq!(fl.friends[0].id, "Y");
    assert_eq!(fl.friends[1].id, "X");
}

#[test]
fn equal_status_rows_keep_their_order() {
    // The sort is stable: rows of the same status stay in the order they
    // were inserted, whatever arrives in between.
    let mut fl = Friendlist::default();
    fl.update(presence("A", "alice", Some("chat")));
    fl.update(presence("B", "bob", Some("offline")));
    fl.update(presence("C", "carol", Some("chat")));
    fl.update(presence("D", "dan", Some("chat")));
    let idle_ids: Vec<&str> = fl
        .friends
        .iter()
        .filter(|f| f.status == Status::Idle)
        .map(|f| f.id.as_str())
        .collect();
    assert_eq!(idle_ids, vec!["A", "C", "D"]);
    assert_eq!(fl.friends.last().map(|f| f.id.as_str()), Some("B"));
}

#[test]
fn sorting_a_sorted_list_changes_nothing() {
    let mut fl = Friendlist::default();
    fl.update(presence("A", "alice", Some("chat")));
    fl.update(presence("B", "bob", Some("away")));
    fl.update(presence("C", "carol", Some("chat")));
    let once = fl.friends.clone();
    fl.sort();
    assert_eq!(fl.friends, once);
}

#[test]
fn reload_keeps_fetched_order_per_status() {
    let mut fl = Friendlist::default();
    fl.reload(vec![
        presence("X", "xena", Some("offline")),
        presence("Y", "yara", Some("chat")),
        presence("Z", "zoe", Some("offline")),
    ]);
    let ids: Vec<&str> = fl.friends.iter().map(|f| f.id.as_str()).collect();
    assert_eq!(ids, vec!["Y", "X", "Z"]);
}

#[test]
fn empty_list_accepts_first_update() {
    let mut fl = Friendlist::default();
    fl.update(presence("A", "alice", None));
    assert_eq!(fl.friends.len(), 1);
    assert_eq!(fl.friends[0].status, Status::Other);
}
