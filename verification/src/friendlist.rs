//! The friend list: presence status, per-friend rank, and the upsert the
//! dispatch loop applies on every friend-presence event — remove the entry
//! with the same identity if one exists, append the new one, re-sort by
//! status.

use vstd::prelude::*;
use crate::event::{opt_chars, FriendEvent};
use crate::strutil::str_eq;

verus! {

broadcast use vstd::seq_lib::group_to_multiset_ensures;

/// Presence status, ordered for display: active friends first, offline and
/// unknown last.
#[derive(Debug, Clone, Copy, PartialEq, Eq, Structural)]
pub enum Status {
    Idle,
    Away,
    Ingame,
    Mobile,
    Offline,
    Other,
}

/// The display order of a status: idle friends sort first, unknown last.
pub open spec fn spec_status_rank(s: Status) -> int {
    match s {
        Status::Idle => 0,
        Status::Away => 1,
        Status::Ingame => 2,
        Status::Mobile => 3,
        Status::Offline => 4,
        Status::Other => 5,
    }
}

fn status_rank(s: Status) -> (r: u8)
    ensures
        r as int == spec_status_rank(s),
{
    match s {
        Status::Idle => 0,
        Status::Away => 1,
        Status::Ingame => 2,
        Status::Mobile => 3,
        Status::Offline => 4,
        Status::Other => 5,
    }
}

/// How a wire availability word names a status; a missing or unknown word
/// is `Other`.
pub open spec fn spec_status_word(w: Seq<char>) -> Status {
    if w == "away"@ {
        Status::Away
    } else if w == "mobile"@ {
        Status::Mobile
    } else if w == "dnd"@ {
        Status::Ingame
    } else if w == "chat"@ {
        Status::Idle
    } else if w == "offline"@ {
        Status::Offline
    } else {
        Status::Other
    }
}

pub open spec fn spec_status_from(s: Option<String>) -> Status {
    match s {
        Some(w) => spec_status_word(w@),
        None => Status::Other,
    }
}

impl Status {
    /// Classify a wire availability word.
    pub fn from(s: Option<String>) -> (r: Status)
        ensures
            r == spec_status_from(s),
    {
        match s {
            None => Status::Other,
            Some(w) => {
                if str_eq(w.as_str(), "away") {
                    Status::Away
                } else if str_eq(w.as_str(), "mobile") {
                    Status::Mobile
                } else if str_eq(w.as_str(), "dnd") {
                    Status::Ingame
                } else if str_eq(w.as_str(), "chat") {
                    Status::Idle
                } else if str_eq(w.as_str(), "offline") {
                    Status::Offline
                } else {
                    Status::Other
                }
            },
        }
    }
}

/// A friend's rank as the presence data reports it, both parts optional.
#[derive(Debug, Clone, PartialEq)]
pub struct Rank {
    pub tier: Option<String>,
    pub division: Option<String>,
}

/// One friend list row.
#[derive(Debug, Clone, PartialEq)]
pub struct FriendListEntry {
    pub name: String,
    pub riot_name: String,
    pub icon: i32,
    pub status: Status,
    pub rank: Rank,
    pub id: String,
    pub summoner_id: i64,
}

/// The mathematical value of a `Rank`.
pub ghost struct RankV {
    pub tier: Option<Seq<char>>,
    pub division: Option<Seq<char>>,
}

/// The mathematical value of a `FriendListEntry`.
pub ghost struct FriendListEntryV {
    pub name: Seq<char>,
    pub riot_name: Seq<char>,
    pub icon: i32,
    pub status: Status,
    pub rank: RankV,
    pub id: Seq<char>,
    pub summoner_id: i64,
}

impl View for Rank {
    type V = RankV;

    open spec fn view(&self) -> RankV {
        RankV { tier: opt_chars(self.tier), division: opt_chars(self.division) }
    }
}

impl View for FriendListEntry {
    type V = FriendListEntryV;

    open spec fn view(&self) -> FriendListEntryV {
        FriendListEntryV {
            name: self.name@,
            riot_name: self.riot_name@,
            icon: self.icon,
            status: self.status,
            rank: self.rank@,
            id: self.id@,
            summoner_id: self.summoner_id,
        }
    }
}

/// What one presence event turns into as a friend list row: the in-game
/// name shown large, the account name small, status classified from the
/// availability word, rank carried over.
pub open spec fn spec_entry_from(f: FriendEvent) -> FriendListEntryV {
    FriendListEntryV {
        name: f.game_name@,
        riot_name: f.name@,
        icon: f.icon,
        status: spec_status_from(f.availability),
        rank: RankV {
            tier: opt_chars(f.ranked_league_tier),
            division: opt_chars(f.ranked_league_division),
        },
        id: f.id@,
        summoner_id: f.summoner_id,
    }
}

impl FriendListEntry {
    /// Turn one presence event into a friend list row.
    pub fn from(f: FriendEvent) -> (r: FriendListEntry)
        ensures
            r@ == spec_entry_from(f),
    {
        let status = Status::from(f.availability);
        FriendListEntry {
            name: f.game_name,
            riot_name: f.name,
            icon: f.icon,
            status,
            rank: Rank { tier: f.ranked_league_tier, division: f.ranked_league_division },
            id: f.id,
            summoner_id: f.summoner_id,
        }
    }
}

/// The selected ordering of the friend list.  Only the status ordering is
/// implemented; the others are reserved words of the configuration file.
#[derive(Debug, Clone, PartialEq)]
pub enum Sorting {
    Status,
    NameAlphabet,
    NameReverseAlphabet,
    NameSearch(String),
}

impl Default for Sorting {
    fn default() -> (r: Self)
        ensures
            r is Status,
    {
        Sorting::Status
    }
}

/// Persisted friend list settings.
#[derive(Debug, Clone, PartialEq)]
pub struct FriendlistConfig {
    pub sorting: Sorting,
}

impl Default for FriendlistConfig {
    fn default() -> (r: Self)
        ensures
            r.sorting is Status,
    {
        FriendlistConfig { sorting: Sorting::default() }
    }
}

/// The friend list: its settings and its rows.
#[derive(Debug, Clone, PartialEq)]
pub struct Friendlist {
    pub config: FriendlistConfig,
    pub friends: Vec<FriendListEntry>,
}

impl Default for Friendlist {
    fn default() -> (r: Self)
        ensures
            r.friends@.len() == 0,
            r.config.sorting is Status,
    {
        Friendlist { config: FriendlistConfig::default(), friends: Vec::new() }
    }
}

/// The values a row sequence holds.
pub open spec fn entries_view(s: Seq<FriendListEntry>) -> Seq<FriendListEntryV> {
    s.map_values(|e: FriendListEntry| e@)
}

/// The first index whose entry has the given identity, `-1` where there is
/// none.
pub open spec fn spec_find_id(s: Seq<FriendListEntryV>, id: Seq<char>) -> int
    decreases s.len(),
{
    if s.len() == 0 {
        -1
    } else if s[0].id == id {
        0
    } else {
        let rest = spec_find_id(s.drop_first(), id);
        if rest == -1 {
            -1
        } else {
            rest + 1
        }
    }
}

/// How many entries hold the given identity.
pub open spec fn spec_count_id(s: Seq<FriendListEntryV>, id: Seq<char>) -> int
    decreases s.len(),
{
    if s.len() == 0 {
        0
    } else {
        (if s[0].id == id {
            1int
        } else {
            0int
        }) + spec_count_id(s.drop_first(), id)
    }
}

/// What an upsert does: drop the first entry with the new row's identity,
/// if any, then append the new row.
pub open spec fn spec_upsert(s: Seq<FriendListEntryV>, f: FriendListEntryV) -> Seq<
    FriendListEntryV> {
    let i = spec_find_id(s, f.id);
    if i >= 0 {
        s.remove(i).push(f)
    } else {
        s.push(f)
    }
}

/// Rows ordered by status rank.
pub open spec fn spec_sorted_by_status(s: Seq<FriendListEntryV>) -> bool {
    forall|i: int, j: int|
        0 <= i <= j < s.len() ==> spec_status_rank(s[i].status) <= spec_status_rank(s[j].status)
}

/// The rows of one status rank, in their order.  A sort that keeps every
/// such subsequence is stable: rows of equal status keep their relative
/// order.
pub open spec fn entries_with_rank(s: Seq<FriendListEntryV>, r: int) -> Seq<FriendListEntryV>
    decreases s.len(),
{
    if s.len() == 0 {
        Seq::<FriendListEntryV>::empty()
    } else if spec_status_rank(s[0].status) == r {
        seq![s[0]] + entries_with_rank(s.drop_first(), r)
    } else {
        entries_with_rank(s.drop_first(), r)
    }
}

/// Appending a row extends its own rank's subsequence and no other.
proof fn lemma_rank_filter_push(s: Seq<FriendListEntryV>, e: FriendListEntryV, r: int)
    ensures
        spec_status_rank(e.status) == r ==> entries_with_rank(s.push(e), r) == entries_with_rank(
            s,
            r,
        ).push(e),
        spec_status_rank(e.status) != r ==> entries_with_rank(s.push(e), r) == entries_with_rank(
            s,
            r,
        ),
    decreases s.len(),
{
    if s.len() == 0 {
        assert(s.push(e)[0] == e);
        assert(s.push(e).drop_first() =~= Seq::<FriendListEntryV>::empty());
        assert(entries_with_rank(Seq::<FriendListEntryV>::empty(), r)
            =~= Seq::<FriendListEntryV>::empty());
        if spec_status_rank(e.status) == r {
            assert(entries_with_rank(s.push(e), r) =~= entries_with_rank(s, r).push(e));
        }
    } else {
        assert(s.push(e)[0] == s[0]);
        assert(s.push(e).drop_first() =~= s.drop_first().push(e));
        lemma_rank_filter_push(s.drop_first(), e, r);
        if spec_status_rank(e.status) == r && spec_status_rank(s[0].status) == r {
            assert(seq![s[0]] + entries_with_rank(s.drop_first(), r).push(e) =~= (seq![s[0]]
                + entries_with_rank(s.drop_first(), r)).push(e));
        }
    }
}

/// Removing a row before which every row ranks strictly higher takes the
/// front off its own rank's subsequence and leaves every other one
/// unchanged.
proof fn lemma_rank_filter_remove_min(s: Seq<FriendListEntryV>, i: int, r: int)
    requires
        0 <= i < s.len(),
        forall|t: int| 0 <= t < i ==> spec_status_rank(s[t].status) > spec_status_rank(s[i].status),
    ensures
        spec_status_rank(s[i].status) == r ==> entries_with_rank(s, r) == seq![s[i]]
            + entries_with_rank(s.remove(i), r),
        spec_status_rank(s[i].status) != r ==> entries_with_rank(s.remove(i), r)
            == entries_with_rank(s, r),
    decreases s.len(),
{
    if i == 0 {
        assert(s.remove(0) =~= s.drop_first());
    } else {
        assert(s.remove(i)[0] == s[0]);
        assert(s.remove(i).drop_first() =~= s.drop_first().remove(i - 1));
        assert(forall|t: int| 0 <= t < i - 1 ==> s.drop_first()[t] == s[t + 1]);
        assert(s.drop_first()[i - 1] == s[i]);
        lemma_rank_filter_remove_min(s.drop_first(), i - 1, r);
    }
}

/// Some row of the given rank exists exactly when that rank's subsequence
/// is not empty.
proof fn lemma_rank_filter_nonempty(s: Seq<FriendListEntryV>, r: int)
    ensures
        (entries_with_rank(s, r).len() > 0) <==> (exists|k: int|
            0 <= k < s.len() && spec_status_rank(s[k].status) == r),
    decreases s.len(),
{
    if s.len() > 0 {
        lemma_rank_filter_nonempty(s.drop_first(), r);
        if spec_status_rank(s[0].status) == r {
            assert(0 <= 0 < s.len() && spec_status_rank(s[0].status) == r);
        } else {
            if entries_with_rank(s, r).len() > 0 {
                let k = choose|k: int|
                    0 <= k < s.drop_first().len() && spec_status_rank(s.drop_first()[k].status)
                        == r;
                assert(s.drop_first()[k] == s[k + 1]);
                assert(0 <= k + 1 < s.len() && spec_status_rank(s[k + 1].status) == r);
            }
            if exists|k: int| 0 <= k < s.len() && spec_status_rank(s[k].status) == r {
                let k = choose|k: int| 0 <= k < s.len() && spec_status_rank(s[k].status) == r;
                assert(s.drop_first()[k - 1] == s[k]);
            }
        }
    }
}

/// A status-sorted list is determined by its per-status rows: two sorted
/// lists holding, for every status, the same rows in the same order are
/// the same list.  In particular, re-sorting an already sorted list
/// changes nothing.
pub proof fn lemma_sorted_rank_filters_determine(
    s: Seq<FriendListEntryV>,
    t: Seq<FriendListEntryV>,
)
    requires
        spec_sorted_by_status(s),
        spec_sorted_by_status(t),
        forall|r: int| entries_with_rank(s, r) == entries_with_rank(t, r),
    ensures
        s == t,
    decreases s.len(),
{
    if s.len() == 0 && t.len() == 0 {
        assert(s =~= t);
    } else if s.len() == 0 {
        let r1 = spec_status_rank(t[0].status);
        lemma_rank_filter_nonempty(t, r1);
        lemma_rank_filter_nonempty(s, r1);
        assert(entries_with_rank(s, r1) == entries_with_rank(t, r1));
        assert(false);
    } else if t.len() == 0 {
        let r0 = spec_status_rank(s[0].status);
        lemma_rank_filter_nonempty(s, r0);
        lemma_rank_filter_nonempty(t, r0);
        assert(entries_with_rank(s, r0) == entries_with_rank(t, r0));
        assert(false);
    } else {
        let r0 = spec_status_rank(s[0].status);
        let r1 = spec_status_rank(t[0].status);
        lemma_rank_filter_nonempty(s, r0);
        lemma_rank_filter_nonempty(t, r0);
        lemma_rank_filter_nonempty(s, r1);
        lemma_rank_filter_nonempty(t, r1);
        if r1 > r0 {
            assert(entries_with_rank(s, r0).len() > 0);
            assert(entries_with_rank(t, r0).len() > 0);
            let k = choose|k: int| 0 <= k < t.len() && spec_status_rank(t[k].status) == r0;
            assert(spec_status_rank(t[0].status) <= spec_status_rank(t[k].status));
            assert(false);
        }
        if r0 > r1 {
            assert(entries_with_rank(t, r1).len() > 0);
            assert(entries_with_rank(s, r1).len() > 0);
            let k = choose|k: int| 0 <= k < s.len() && spec_status_rank(s[k].status) == r1;
            assert(spec_status_rank(s[0].status) <= spec_status_rank(s[k].status));
            assert(false);
        }
        assert(r0 == r1);
        assert(entries_with_rank(s, r0) == seq![s[0]] + entries_with_rank(s.drop_first(), r0));
        assert(entries_with_rank(t, r0) == seq![t[0]] + entries_with_rank(t.drop_first(), r0));
        assert(entries_with_rank(s, r0)[0] == s[0]);
        assert(entries_with_rank(t, r0)[0] == t[0]);
        assert(s[0] == t[0]);
        assert forall|i: int, j: int|
            0 <= i <= j < s.drop_first().len() implies spec_status_rank(
            s.drop_first()[i].status,
        ) <= spec_status_rank(s.drop_first()[j].status) by {
            assert(s.drop_first()[i] == s[i + 1]);
            assert(s.drop_first()[j] == s[j + 1]);
        }
        assert forall|i: int, j: int|
            0 <= i <= j < t.drop_first().len() implies spec_status_rank(
            t.drop_first()[i].status,
        ) <= spec_status_rank(t.drop_first()[j].status) by {
            assert(t.drop_first()[i] == t[i + 1]);
            assert(t.drop_first()[j] == t[j + 1]);
        }
        assert forall|r: int|
            entries_with_rank(s.drop_first(), r) == entries_with_rank(t.drop_first(), r) by {
            assert(entries_with_rank(s, r) == entries_with_rank(t, r));
            if r == r0 {
                assert(entries_with_rank(s.drop_first(), r) =~= entries_with_rank(
                    t.drop_first(),
                    r,
                )) by {
                    let a = entries_with_rank(s.drop_first(), r);
                    let b = entries_with_rank(t.drop_first(), r);
                    assert(forall|j: int| 0 <= j < a.len() ==> (seq![s[0]] + a)[j + 1] == a[j]);
                    assert(forall|j: int| 0 <= j < b.len() ==> (seq![t[0]] + b)[j + 1] == b[j]);
                }
            } else {
                assert(entries_with_rank(s, r) == entries_with_rank(s.drop_first(), r));
                assert(entries_with_rank(t, r) == entries_with_rank(t.drop_first(), r));
            }
        }
        lemma_sorted_rank_filters_determine(s.drop_first(), t.drop_first());
        assert forall|j: int| 0 <= j < s.len() implies s[j] == t[j] by {
            if j > 0 {
                assert(s.drop_first()[j - 1] == s[j]);
                assert(t.drop_first()[j - 1] == t[j]);
            }
        }
        assert(s =~= t);
    }
}

proof fn lemma_find_id_in_range(s: Seq<FriendListEntryV>, id: Seq<char>)
    ensures
        spec_find_id(s, id) == -1 || (0 <= spec_find_id(s, id) < s.len() && s[spec_find_id(
            s,
            id,
        )].id == id),
    decreases s.len(),
{
    if s.len() > 0 && s[0].id != id {
        lemma_find_id_in_range(s.drop_first(), id);
    }
}

proof fn lemma_find_id_vs_count(s: Seq<FriendListEntryV>, id: Seq<char>)
    ensures
        (spec_find_id(s, id) >= 0) <==> (spec_count_id(s, id) > 0),
        spec_count_id(s, id) >= 0,
    decreases s.len(),
{
    if s.len() > 0 {
        lemma_find_id_vs_count(s.drop_first(), id);
    }
}

/// The first match is the first: nothing before it matches.
proof fn lemma_find_id_first(s: Seq<FriendListEntryV>, id: Seq<char>, i: int)
    requires
        0 <= i < s.len(),
        s[i].id == id,
        forall|k: int| 0 <= k < i ==> s[k].id != id,
    ensures
        spec_find_id(s, id) == i,
    decreases s.len(),
{
    if i > 0 {
        assert(s.drop_first()[i - 1] == s[i]);
        assert(forall|k: int| 0 <= k < i - 1 ==> s.drop_first()[k] == s[k + 1]);
        lemma_find_id_first(s.drop_first(), id, i - 1);
    }
}

proof fn lemma_find_id_none(s: Seq<FriendListEntryV>, id: Seq<char>)
    requires
        forall|k: int| 0 <= k < s.len() ==> s[k].id != id,
    ensures
        spec_find_id(s, id) == -1,
    decreases s.len(),
{
    if s.len() > 0 {
        assert(forall|k: int| 0 <= k < s.drop_first().len() ==> s.drop_first()[k] == s[k + 1]);
        lemma_find_id_none(s.drop_first(), id);
    }
}

/// Removing the entry at one index lowers the identity's count exactly by
/// that entry's contribution.
proof fn lemma_count_remove_any(s: Seq<FriendListEntryV>, j: int, id: Seq<char>)
    requires
        0 <= j < s.len(),
    ensures
        spec_count_id(s.remove(j), id) == spec_count_id(s, id) - (if s[j].id == id {
            1int
        } else {
            0int
        }),
    decreases s.len(),
{
    if j == 0 {
        assert(s.remove(0) =~= s.drop_first());
    } else {
        assert(s.remove(j)[0] == s[0]);
        assert(s.remove(j).drop_first() =~= s.drop_first().remove(j - 1));
        lemma_count_remove_any(s.drop_first(), j - 1, id);
    }
}

/// Appending a row raises its identity's count by one and no other.
proof fn lemma_count_push(s: Seq<FriendListEntryV>, f: FriendListEntryV, id: Seq<char>)
    ensures
        spec_count_id(s.push(f), id) == spec_count_id(s, id) + (if f.id == id {
            1int
        } else {
            0int
        }),
    decreases s.len(),
{
    if s.len() == 0 {
        assert(s.push(f)[0] == f);
        assert(s.push(f).drop_first() =~= Seq::<FriendListEntryV>::empty());
        assert(spec_count_id(Seq::<FriendListEntryV>::empty(), id) == 0);
    } else {
        assert(s.push(f)[0] == s[0]);
        assert(s.push(f).drop_first() =~= s.drop_first().push(f));
        lemma_count_push(s.drop_first(), f, id);
    }
}

/// Two row sequences holding the same rows hold every identity the same
/// number of times.
proof fn lemma_count_respects_multiset(
    s: Seq<FriendListEntryV>,
    t: Seq<FriendListEntryV>,
    id: Seq<char>,
)
    requires
        s.to_multiset() == t.to_multiset(),
    ensures
        spec_count_id(s, id) == spec_count_id(t, id),
    decreases s.len(),
{
    if s.len() == 0 {
        assert(t.to_multiset().len() == 0);
        assert(t.len() == 0);
    } else {
        let x = s[0];
        assert(s.contains(x));
        assert(s.to_multiset().count(x) > 0);
        assert(t.to_multiset().count(x) > 0);
        assert(t.contains(x));
        let j = choose|j: int| 0 <= j < t.len() && t[j] == x;
        assert(s.remove(0).to_multiset() =~= s.to_multiset().remove(x));
        assert(t.remove(j).to_multiset() =~= t.to_multiset().remove(x));
        assert(s.remove(0) =~= s.drop_first());
        lemma_count_remove_any(t, j, id);
        lemma_count_respects_multiset(s.drop_first(), t.remove(j), id);
    }
}

/// A count of zero means no row holds the identity.
proof fn lemma_count_zero_no_match(s: Seq<FriendListEntryV>, id: Seq<char>)
    requires
        spec_count_id(s, id) == 0,
    ensures
        forall|k: int| 0 <= k < s.len() ==> s[k].id != id,
    decreases s.len(),
{
    lemma_find_id_vs_count(s, id);
    if s.len() > 0 {
        lemma_find_id_vs_count(s.drop_first(), id);
        lemma_count_zero_no_match(s.drop_first(), id);
        assert(forall|k: int| 1 <= k < s.len() ==> s[k] == s.drop_first()[k - 1]);
    }
}

/// Friend-presence upsert: where the roster holds an identity exactly once,
/// an update event for that identity replaces the prior entry exactly once —
/// the new list holds the identity once, it is the new row, and the length
/// is unchanged.  This survives any later reordering that keeps the rows,
/// such as the re-sort after each update.
pub proof fn lemma_update_replaces_once(
    friends: Seq<FriendListEntryV>,
    f: FriendListEntryV,
    after: Seq<FriendListEntryV>,
)
    requires
        spec_count_id(friends, f.id) == 1,
        after.to_multiset() == spec_upsert(friends, f).to_multiset(),
    ensures
        after.len() == friends.len(),
        spec_count_id(after, f.id) == 1,
        forall|k: int| 0 <= k < after.len() && after[k].id == f.id ==> after[k] == f,
{
    lemma_find_id_vs_count(friends, f.id);
    let i = spec_find_id(friends, f.id);
    lemma_find_id_in_range(friends, f.id);
    lemma_count_remove_any(friends, i, f.id);
    lemma_count_push(friends.remove(i), f, f.id);
    let up = spec_upsert(friends, f);
    assert(up == friends.remove(i).push(f));
    assert(spec_count_id(up, f.id) == 1);
    lemma_count_respects_multiset(up, after, f.id);
    assert(up.len() == friends.len());
    assert(after.len() == after.to_multiset().len());
    assert(up.len() == up.to_multiset().len());
    lemma_count_zero_no_match(friends.remove(i), f.id);
    assert forall|k: int| 0 <= k < after.len() && after[k].id == f.id implies after[k] == f by {
        assert(after.contains(after[k]));
        assert(after.to_multiset().count(after[k]) > 0);
        assert(up.to_multiset().count(after[k]) > 0);
        assert(up.contains(after[k]));
        let j = choose|j: int| 0 <= j < up.len() && up[j] == after[k];
        if j < up.len() - 1 {
            assert(up[j] == friends.remove(i)[j]);
            assert(up[j].id != f.id);
        } else {
            assert(up[j] == f);
        }
    }
}

/// The first row with the given identity, as the list holds it.
fn find_entry_index(friends: &Vec<FriendListEntry>, id: &String) -> (r: Option<usize>)
    ensures
        match r {
            Some(i) => 0 <= i < friends@.len() && spec_find_id(entries_view(friends@), id@)
                == i as int,
            None => spec_find_id(entries_view(friends@), id@) == -1,
        },
{
    let ghost s = entries_view(friends@);
    let mut i: usize = 0;
    while i < friends.len()
        invariant
            i <= friends@.len(),
            s == entries_view(friends@),
            s.len() == friends@.len(),
            forall|k: int| 0 <= k < i ==> s[k].id != id@,
        decreases friends@.len() - i,
    {
        if str_eq(friends[i].id.as_str(), id.as_str()) {
            proof {
                lemma_find_id_first(s, id@, i as int);
            }
            return Some(i);
        }
        i += 1;
    }
    proof {
        lemma_find_id_none(s, id@);
    }
    None
}

impl Friendlist {
    /// Fold one friend-presence event into the list: upsert by identity,
    /// then re-sort.  The rows afterwards are exactly the upsert's, in
    /// status order, and stably so: per status they keep the upsert's
    /// order.
    pub fn update(&mut self, update: FriendEvent)
        requires
            old(self).config.sorting is Status,
        ensures
            final(self).config == old(self).config,
            entries_view(final(self).friends@).to_multiset() == spec_upsert(
                entries_view(old(self).friends@),
                spec_entry_from(update),
            ).to_multiset(),
            spec_sorted_by_status(entries_view(final(self).friends@)),
            forall|r: int|
                entries_with_rank(entries_view(final(self).friends@), r) == entries_with_rank(
                    spec_upsert(entries_view(old(self).friends@), spec_entry_from(update)),
                    r,
                ),
    {
        let ghost before = entries_view(self.friends@);
        let friend = FriendListEntry::from(update);
        match find_entry_index(&self.friends, &friend.id) {
            Some(i) => {
                self.friends.remove(i);
                proof {
                    assert(entries_view(self.friends@) =~= before.remove(i as int));
                }
            },
            None => {},
        }
        self.friends.push(friend);
        proof {
            assert(entries_view(self.friends@) =~= spec_upsert(before, spec_entry_from(update)));
        }
        self.sort();
    }

    /// Re-sort the rows by status, keeping exactly the rows, and stably:
    /// for every status, that status's rows come out in the order they
    /// went in.  Only the status ordering is implemented, as in the client
    /// this serves.
    pub fn sort(&mut self)
        requires
            old(self).config.sorting is Status,
        ensures
            final(self).config == old(self).config,
            entries_view(final(self).friends@).to_multiset() == entries_view(
                old(self).friends@,
            ).to_multiset(),
            spec_sorted_by_status(entries_view(final(self).friends@)),
            forall|r: int|
                entries_with_rank(entries_view(final(self).friends@), r) == entries_with_rank(
                    entries_view(old(self).friends@),
                    r,
                ),
    {
        let ghost target = entries_view(self.friends@).to_multiset();
        let ghost orig = entries_view(self.friends@);
        let mut out: Vec<FriendListEntry> = Vec::new();
        proof {
            assert(entries_view(out@) =~= Seq::<FriendListEntryV>::empty());
            assert forall|r: int|
                entries_with_rank(entries_view(out@), r) + entries_with_rank(
                    entries_view(self.friends@),
                    r,
                ) == entries_with_rank(orig, r) by {
                assert(entries_with_rank(Seq::<FriendListEntryV>::empty(), r)
                    =~= Seq::<FriendListEntryV>::empty());
                assert(Seq::<FriendListEntryV>::empty() + entries_with_rank(orig, r)
                    =~= entries_with_rank(orig, r));
            }
        }
        while self.friends.len() > 0
            invariant
                self.config == old(self).config,
                orig == entries_view(old(self).friends@),
                entries_view(out@).to_multiset().add(entries_view(self.friends@).to_multiset())
                    =~= target,
                spec_sorted_by_status(entries_view(out@)),
                forall|a: int, b: int|
                    0 <= a < entries_view(out@).len() && 0 <= b < entries_view(
                        self.friends@,
                    ).len() ==> spec_status_rank(entries_view(out@)[a].status) <= spec_status_rank(
                        entries_view(self.friends@)[b].status,
                    ),
                forall|r: int|
                    entries_with_rank(entries_view(out@), r) + entries_with_rank(
                        entries_view(self.friends@),
                        r,
                    ) == entries_with_rank(orig, r),
            decreases self.friends@.len(),
        {
            let ghost remaining = entries_view(self.friends@);
            let ghost sorted_part = entries_view(out@);
            let mut min_idx: usize = 0;
            let mut k: usize = 1;
            while k < self.friends.len()
                invariant
                    remaining == entries_view(self.friends@),
                    0 < remaining.len(),
                    remaining.len() == self.friends@.len(),
                    min_idx < k,
                    k <= remaining.len(),
                    forall|t: int|
                        0 <= t < k ==> spec_status_rank(remaining[min_idx as int].status)
                            <= spec_status_rank(remaining[t].status),
                    forall|t: int|
                        0 <= t < min_idx ==> spec_status_rank(remaining[t].status)
                            > spec_status_rank(remaining[min_idx as int].status),
                decreases remaining.len() - k,
            {
                if status_rank(self.friends[k].status) < status_rank(
                    self.friends[min_idx].status,
                ) {
                    min_idx = k;
                }
                k += 1;
            }
            proof {
                assert(0 <= min_idx < remaining.len());
                assert(forall|t: int|
                    0 <= t < remaining.len() ==> spec_status_rank(remaining[min_idx as int].status)
                        <= spec_status_rank(remaining[t].status));
            }
            let e = self.friends.remove(min_idx);
            proof {
                assert(e@ == remaining[min_idx as int]);
                assert(entries_view(self.friends@) =~= remaining.remove(min_idx as int));
                assert(remaining.remove(min_idx as int).to_multiset() =~= remaining.to_multiset()
                    .remove(e@));
                assert(remaining.contains(remaining[min_idx as int]));
                assert(remaining.to_multiset().count(e@) > 0);
            }
            out.push(e);
            proof {
                assert(entries_view(out@) =~= sorted_part.push(e@));
                assert(sorted_part.push(e@).to_multiset() =~= sorted_part.to_multiset().insert(
                    e@,
                ));
                assert(sorted_part.to_multiset().insert(e@).add(
                    remaining.to_multiset().remove(e@),
                ) =~= sorted_part.to_multiset().add(remaining.to_multiset()));
                assert(entries_view(out@).to_multiset().add(
                    entries_view(self.friends@).to_multiset(),
                ) =~= target);
                assert forall|i: int, j: int|
                    0 <= i <= j < entries_view(out@).len() implies spec_status_rank(
                    entries_view(out@)[i].status,
                ) <= spec_status_rank(entries_view(out@)[j].status) by {
                    if j == sorted_part.len() {
                        if i < j {
                            assert(spec_status_rank(sorted_part[i].status) <= spec_status_rank(
                                remaining[min_idx as int].status,
                            ));
                        }
                    }
                }
                assert forall|a: int, b: int|
                    0 <= a < entries_view(out@).len() && 0 <= b < entries_view(
                        self.friends@,
                    ).len() implies spec_status_rank(entries_view(out@)[a].status)
                    <= spec_status_rank(entries_view(self.friends@)[b].status) by {
                    let fb = entries_view(self.friends@)[b];
                    assert(fb == remaining.remove(min_idx as int)[b]);
                    if b < min_idx as int {
                        assert(fb == remaining[b]);
                    } else {
                        assert(fb == remaining[b + 1]);
                    }
                    if a < sorted_part.len() {
                        assert(entries_view(out@)[a] == sorted_part[a]);
                    } else {
                        assert(entries_view(out@)[a] == remaining[min_idx as int]);
                    }
                }
                assert forall|r: int|
                    entries_with_rank(entries_view(out@), r) + entries_with_rank(
                        entries_view(self.friends@),
                        r,
                    ) == entries_with_rank(orig, r) by {
                    lemma_rank_filter_push(sorted_part, e@, r);
                    lemma_rank_filter_remove_min(remaining, min_idx as int, r);
                    if spec_status_rank(e@.status) == r {
                        assert(entries_with_rank(remaining, r) == seq![e@] + entries_with_rank(
                            remaining.remove(min_idx as int),
                            r,
                        ));
                        assert(entries_with_rank(sorted_part, r).push(e@) + entries_with_rank(
                            remaining.remove(min_idx as int),
                            r,
                        ) =~= entries_with_rank(sorted_part, r) + (seq![e@] + entries_with_rank(
                            remaining.remove(min_idx as int),
                            r,
                        )));
                    }
                }
            }
        }
        proof {
            assert(entries_view(self.friends@).to_multiset().len() == 0);
            assert(entries_view(out@).to_multiset().add(entries_view(self.friends@).to_multiset())
                =~= entries_view(out@).to_multiset());
            assert(entries_view(self.friends@) =~= Seq::<FriendListEntryV>::empty());
            assert forall|r: int|
                entries_with_rank(entries_view(out@), r) == entries_with_rank(orig, r) by {
                assert(entries_with_rank(Seq::<FriendListEntryV>::empty(), r)
                    =~= Seq::<FriendListEntryV>::empty());
                assert(entries_with_rank(entries_view(out@), r)
                    + Seq::<FriendListEntryV>::empty() =~= entries_with_rank(
                    entries_view(out@),
                    r,
                ));
            }
        }
        self.friends = out;
    }

    /// Replace the whole list with freshly fetched friends, then sort.
    /// The rows afterwards are exactly the fetched friends' rows, in
    /// status order, per status in the fetched order.
    pub fn reload(&mut self, fetched: Vec<FriendEvent>)
        requires
            old(self).config.sorting is Status,
        ensures
            final(self).config == old(self).config,
            entries_view(final(self).friends@).to_multiset() == fetched@.map_values(
                |f: FriendEvent| spec_entry_from(f),
            ).to_multiset(),
            spec_sorted_by_status(entries_view(final(self).friends@)),
            forall|r: int|
                entries_with_rank(entries_view(final(self).friends@), r) == entries_with_rank(
                    fetched@.map_values(|f: FriendEvent| spec_entry_from(f)),
                    r,
                ),
    {
        let ghost want = fetched@.map_values(|f: FriendEvent| spec_entry_from(f));
        self.friends = Vec::new();
        let mut rest = fetched;
        proof {
            assert(entries_view(self.friends@) =~= Seq::<FriendListEntryV>::empty());
            assert(entries_view(self.friends@) + rest@.map_values(
                |f: FriendEvent| spec_entry_from(f),
            ) =~= want);
        }
        while rest.len() > 0
            invariant
                self.config == old(self).config,
                entries_view(self.friends@) + rest@.map_values(|f: FriendEvent| spec_entry_from(f))
                    == want,
            decreases rest@.len(),
        {
            let ghost rest_v = rest@.map_values(|f: FriendEvent| spec_entry_from(f));
            let ghost built = entries_view(self.friends@);
            let f = rest.remove(0);
            proof {
                assert(rest@.map_values(|f: FriendEvent| spec_entry_from(f))
                    =~= rest_v.drop_first());
                assert(rest_v[0] == spec_entry_from(f));
            }
            let entry = FriendListEntry::from(f);
            self.friends.push(entry);
            proof {
                assert(entries_view(self.friends@) =~= built.push(entry@));
                assert(built.push(entry@) + rest_v.drop_first() =~= built + rest_v);
            }
        }
        proof {
            assert(rest@.map_values(|f: FriendEvent| spec_entry_from(f)).len() == 0);
            assert(entries_view(self.friends@) =~= entries_view(self.friends@) + rest@.map_values(
                |f: FriendEvent| spec_entry_from(f),
            ));
            assert(entries_view(self.friends@) == want);
        }
        self.sort();
    }
}

} // verus!
