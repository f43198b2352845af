//! The non-blocking dispatch step and the relay worker's decisions.
//!
//! The dispatch loop runs once per UI tick: it drains the buffered control
//! messages and folds each into the session state through `dispatch_step`,
//! which never blocks and tells the surrounding loop what to do next —
//! which socket to read, whether to repaint, and which members need a
//! ranked lookup.  The relay worker's side is `worker_task` and
//! `worker_replies`: what one control message asks of the worker, and what
//! the worker reports back, always ending with a `Ready` acknowledgment
//! that keeps the read ping-pong going.

use vstd::prelude::*;
use crate::classify::{classify_frame, frame_classifiable, spec_frame_event};
use crate::event::{Event, LeagueEvent, LeagueEventKind, Member};
use crate::friendlist::{entries_view, entries_with_rank, spec_entry_from, spec_sorted_by_status,
    spec_upsert, Friendlist};
use crate::game::{build_roster, spec_apply_phase, spec_apply_queue_status, spec_build_roster,
    spec_with_members, Game, RankedStatus};
use crate::registry::SocketRegistry;

verus! {

/// What the dispatch loop asks of its surroundings after one message:
/// which socket to issue a read for, whether the UI needs a repaint, and
/// which reported members still need their ranked-statistics lookup.
pub struct DispatchOutcome {
    pub read_socket: Option<i32>,
    pub repaint: bool,
    pub lookup_members: Option<Vec<Member>>,
}

/// Fold one control message into the session state.
///
/// A `LeagueEvent` message must carry a classified kind: one without is a
/// contract violation — such a message must never be built — and is
/// excluded here; a caller that meets it should abort.
/// Queue, game-flow and friend events mutate the state directly; a lobby
/// event hands the reported members back for their ranked lookups, which
/// must not happen under this non-blocking step.
pub fn dispatch_step(game: &mut Game, friendlist: &mut Friendlist, msg: Event) -> (r:
    DispatchOutcome)
    requires
        old(friendlist).config.sorting is Status,
        msg matches Event::LeagueEvent(idx, ev) ==> ev.kind is Some,
    ensures
        final(friendlist).config == old(friendlist).config,
        msg is Ready ==> *final(game) == *old(game) && *final(friendlist) == *old(friendlist) && r
            == (DispatchOutcome { read_socket: Some(0), repaint: false, lookup_members: None }),
        msg matches Event::SocketCreated(idx) ==> *final(game) == *old(game) && *final(friendlist)
            == *old(friendlist) && r == (DispatchOutcome {
            read_socket: Some(idx),
            repaint: false,
            lookup_members: None,
        }),
        msg matches Event::LeagueEventEmpty(idx) ==> *final(game) == *old(game) && *final(friendlist) == *old(friendlist) && r == (DispatchOutcome {
            read_socket: Some(idx),
            repaint: false,
            lookup_members: None,
        }),
        (msg is CreateSocket || msg is DeleteSocket || msg is ReadSocket) ==> *final(game) == *old(game) && *final(friendlist) == *old(friendlist) && r == (DispatchOutcome {
            read_socket: None,
            repaint: false,
            lookup_members: None,
        }),
        msg matches Event::LeagueEvent(idx, ev) ==> {
            &&& r.read_socket == Some(idx)
            &&& r.repaint
            &&& (ev.kind->Some_0 matches LeagueEventKind::Queue(q) ==> {
                &&& *final(game) == spec_apply_queue_status(*old(game), ev.event_type, q)
                &&& *final(friendlist) == *old(friendlist)
                &&& r.lookup_members is None
            })
            &&& (ev.kind->Some_0 matches LeagueEventKind::GameFlow(fo) ==> {
                &&& *final(game) == (match fo {
                    Some(f) => (match f.phase {
                        Some(p) => (Game {
                            search_sate: spec_apply_phase(p, old(game).search_sate),
                            ..*old(game)
                        }),
                        None => *old(game),
                    }),
                    None => *old(game),
                })
                &&& *final(friendlist) == *old(friendlist)
                &&& r.lookup_members is None
            })
            &&& (ev.kind->Some_0 matches LeagueEventKind::Lobby(lo) ==> {
                &&& *final(game) == *old(game)
                &&& *final(friendlist) == *old(friendlist)
                &&& r.lookup_members == (match lo {
                    Some(l) => l.members,
                    None => None,
                })
            })
            &&& (ev.kind->Some_0 matches LeagueEventKind::Friend(fr) ==> {
                &&& *final(game) == *old(game)
                &&& r.lookup_members is None
                &&& (match fr {
                    Some(fe) => {
                        &&& entries_view(final(friendlist).friends@).to_multiset() == spec_upsert(
                            entries_view(old(friendlist).friends@),
                            spec_entry_from(fe),
                        ).to_multiset()
                        &&& spec_sorted_by_status(entries_view(final(friendlist).friends@))
                        &&& forall|r: int|
                            entries_with_rank(entries_view(final(friendlist).friends@), r)
                                == entries_with_rank(
                                spec_upsert(
                                    entries_view(old(friendlist).friends@),
                                    spec_entry_from(fe),
                                ),
                                r,
                            )
                    },
                    None => *final(friendlist) == *old(friendlist),
                })
            })
            &&& (ev.kind->Some_0 is ChampSelect ==> *final(game) == *old(game) && *final(friendlist) == *old(friendlist) && r.lookup_members is None)
        },
{
    match msg {
        Event::Ready => DispatchOutcome {
            read_socket: Some(0),
            repaint: false,
            lookup_members: None,
        },
        Event::SocketCreated(idx) => DispatchOutcome {
            read_socket: Some(idx),
            repaint: false,
            lookup_members: None,
        },
        Event::LeagueEventEmpty(idx) => DispatchOutcome {
            read_socket: Some(idx),
            repaint: false,
            lookup_members: None,
        },
        Event::LeagueEvent(idx, ev) => {
            let kind = ev.kind.unwrap();
            let lookup_members = match kind {
                LeagueEventKind::Queue(q) => {
                    game.apply_queue_status(ev.event_type, q);
                    None
                },
                LeagueEventKind::Lobby(lo) => {
                    match lo {
                        Some(l) => l.members,
                        None => None,
                    }
                },
                LeagueEventKind::GameFlow(fo) => {
                    match fo {
                        Some(f) => match f.phase {
                            Some(p) => game.apply_phase(p),
                            None => {},
                        },
                        None => {},
                    }
                    None
                },
                LeagueEventKind::Friend(fr) => {
                    match fr {
                        Some(fe) => friendlist.update(fe),
                        None => {},
                    }
                    None
                },
                LeagueEventKind::ChampSelect => None,
            };
            DispatchOutcome { read_socket: Some(idx), repaint: true, lookup_members }
        },
        Event::CreateSocket(_) => DispatchOutcome {
            read_socket: None,
            repaint: false,
            lookup_members: None,
        },
        Event::DeleteSocket(_) => DispatchOutcome {
            read_socket: None,
            repaint: false,
            lookup_members: None,
        },
        Event::ReadSocket(_) => DispatchOutcome {
            read_socket: None,
            repaint: false,
            lookup_members: None,
        },
    }
}

/// Finish a lobby event once the ranked lookups are in: build the roster
/// snapshot from the reported members and their lookup results, and
/// replace the session's member list with it wholesale.
pub fn apply_roster(game: &mut Game, members: &Vec<Member>, lookups: &Vec<Option<RankedStatus>>)
    requires
        members@.len() == lookups@.len(),
    ensures
        final(game).members@.map_values(|lm: crate::game::LobbyMember| lm@) == spec_build_roster(
            members@,
            lookups@,
        ),
        *final(game) == spec_with_members(*old(game), final(game).members),
{
    let roster = build_roster(members, lookups);
    game.update_members(roster);
}

/// What the relay worker does with one control message: open a socket,
/// block on a socket's queue, close a socket, or nothing.
#[derive(Debug, Clone, Copy, PartialEq, Eq, Structural)]
pub enum WorkerTask {
    Open(i32),
    Read(i32),
    Close(i32),
    Nothing,
}

/// Decide the worker's task for one received control message.  A delete
/// closes the socket: the registry entry goes away, which is also the stop
/// signal the nested reader checks between its blocking reads — the
/// cooperative shutdown the control vocabulary reserves a message for.
pub fn worker_task(msg: &Event) -> (r: WorkerTask)
    ensures
        msg matches Event::CreateSocket(idx) ==> r == WorkerTask::Open(*idx),
        msg matches Event::ReadSocket(idx) ==> r == WorkerTask::Read(*idx),
        msg matches Event::DeleteSocket(idx) ==> r == WorkerTask::Close(*idx),
        !(msg is CreateSocket) && !(msg is ReadSocket) && !(msg is DeleteSocket) ==> r
            == WorkerTask::Nothing,
{
    match msg {
        Event::CreateSocket(idx) => WorkerTask::Open(*idx),
        Event::ReadSocket(idx) => WorkerTask::Read(*idx),
        Event::DeleteSocket(idx) => WorkerTask::Close(*idx),
        _ => WorkerTask::Nothing,
    }
}

/// Perform a close task on the registry: the socket's entry, and whatever
/// its queue still held, is removed.  A close for an unknown socket
/// changes nothing.
pub fn close_socket(registry: &mut SocketRegistry, task: WorkerTask)
    ensures
        task matches WorkerTask::Close(idx) ==> final(registry)@ == old(registry)@.remove(idx),
        !(task is Close) ==> final(registry)@ == old(registry)@,
{
    match task {
        WorkerTask::Close(idx) => registry.delete_socket(idx),
        _ => {},
    }
}

/// What the worker reports back once its task is done: the lifecycle or
/// data event the task produced, always followed by `Ready`, which re-arms
/// the dispatcher's read loop.  `read_result` is what a blocking read
/// yielded — `None` where the queue's sender is gone — and is only
/// reported for a read task.
pub fn worker_replies(task: WorkerTask, read_result: Option<LeagueEvent>) -> (r: Vec<Event>)
    ensures
        task matches WorkerTask::Open(idx) ==> r@ == seq![
            Event::SocketCreated(idx),
            Event::Ready,
        ],
        task matches WorkerTask::Read(idx) ==> r@ == (match read_result {
            Some(ev) => seq![Event::LeagueEvent(idx, ev), Event::Ready],
            None => seq![Event::Ready],
        }),
        task is Close || task is Nothing ==> r@ == seq![Event::Ready],
{
    let mut r: Vec<Event> = Vec::new();
    match task {
        WorkerTask::Open(idx) => {
            r.push(Event::SocketCreated(idx));
        },
        WorkerTask::Read(idx) => {
            match read_result {
                Some(ev) => r.push(Event::LeagueEvent(idx, ev)),
                None => {},
            }
        },
        WorkerTask::Close(_) => {},
        WorkerTask::Nothing => {},
    }
    r.push(Event::Ready);
    proof {
        if task is Open {
            assert(r@ =~= seq![Event::SocketCreated(task->Open_0), Event::Ready]);
        }
    }
    r
}

/// Ingest one raw stream frame for a socket: classify it and, where it
/// yields an event, append that event to the socket's queue.  Exactly the
/// classifiable frames of a registered socket are appended, and what is
/// appended is the frame's own classification; everything else changes
/// nothing.  For one socket the queue thus holds exactly the
/// classifications of its classifiable frames, in stream order.
pub fn ingest_frame(registry: &mut SocketRegistry, id: i32, text: &str) -> (pushed: bool)
    ensures
        pushed == (old(registry)@.contains_key(id) && frame_classifiable(text@)),
        !pushed ==> final(registry)@ == old(registry)@,
        pushed ==> exists|ev: LeagueEvent|
            ev@ == spec_frame_event(text@) && final(registry)@ == old(registry)@.insert(
                id,
                old(registry)@[id].push(ev),
            ),
{
    match classify_frame(text) {
        Some(event) => {
            let ghost ev = event;
            let ok = registry.push_event(id, event);
            proof {
                if ok {
                    assert(ev@ == spec_frame_event(text@) && final(registry)@ == old(
                        registry,
                    )@.insert(id, old(registry)@[id].push(ev)));
                }
            }
            ok
        },
        None => false,
    }
}

} // verus!
