//! What holds of every run of the orchestrator.
//!
//! A run is a start state and the events that reach it, in order.  The
//! theorems here are about the actions such a run asks for: that a compile
//! is asked for only while the watcher is paused, that the watcher is rearmed
//! only after the compile has returned, that one cycle is in flight at a
//! time, and that a rearm replaces what was watched.

use vstd::prelude::*;

use crate::watcher::compile_action;
use crate::watcher::distinct;
use crate::watcher::replace_watch;
use crate::watcher::stale;
use crate::watcher::ActionView;
use crate::watcher::ChangeEventView;
use crate::watcher::EventView;
use crate::watcher::PathText;
use crate::watcher::RequestView;
use crate::watcher::Session;
use crate::watcher::StageView;
use crate::watcher::TriggerView;

verus! {

impl ActionView {
    /// Whether the action runs the compiler.
    pub open spec fn is_compile(self) -> bool {
        self is Build || self is Rebuild
    }
}

impl Session {
    /// Whether a cycle is in flight.
    pub open spec fn busy(self) -> bool {
        !(self.stage is Idle)
    }

    /// Whether the compiler may be at work: from the compile action until
    /// the dependencies have been read back.
    pub open spec fn compiling(self) -> bool {
        self.stage is Compiling || self.stage is Reading
    }

    /// Whether the cycle in flight counts on a pause it asked for.
    pub open spec fn holds_pause(self) -> bool {
        self.stage is Pausing || self.compiling()
    }

    /// The state after `events` have reached the orchestrator in order.
    pub open spec fn run(self, events: Seq<EventView>) -> Session
        decreases events.len(),
    {
        if events.len() == 0 {
            self
        } else {
            self.run(events.drop_last()).step(events.last()).0
        }
    }

    /// The actions that `events` call for, one for each event.
    pub open spec fn trace(self, events: Seq<EventView>) -> Seq<ActionView> {
        Seq::new(events.len(), |i: int| self.run(events.take(i)).step(events[i]).1)
    }
}

/// Whether the watcher is paused once `actions` have been performed in
/// order, where `paused` says how it was before: a pause pauses it, a rearm
/// resumes it, and nothing else touches it.
pub open spec fn paused_after(paused: bool, actions: Seq<ActionView>) -> bool
    decreases actions.len(),
{
    if actions.len() == 0 {
        paused
    } else {
        match actions.last() {
            ActionView::Pause => true,
            ActionView::Watch { .. } => false,
            _ => paused_after(paused, actions.drop_last()),
        }
    }
}

/// Each action is asked for in its place of the cycle, and in answer to the
/// outcome it follows from: the compile to the completed pause, the reading
/// of the dependencies to the returned compile, the rearm to the
/// dependencies that were read, and a pause only where no cycle is in
/// flight.
pub proof fn lemma_action_in_its_place(session: Session, event: EventView)
    ensures
        ({
            let (after, action) = session.step(event);
            match action {
                ActionView::Standby => after.stage == session.stage || (session.stage is Arming
                    && event is Armed && after.stage is Idle),
                ActionView::Pause => (session.stage is Idle || (session.stage is Arming
                    && event is Armed)) && after.stage is Pausing,
                ActionView::Build | ActionView::Rebuild { .. } => session.stage is Pausing
                    && event is Paused && after.stage is Compiling,
                ActionView::ReadDependencies => session.stage is Compiling && event is Compiled
                    && after.stage is Reading,
                ActionView::Watch { .. } => session.stage is Reading && event is Dependencies
                    && after.stage is Arming,
            }
        }),
{
}

/// The compile serves the trigger that the cycle was begun for: a rebuild
/// hands on exactly the changed and deleted paths it was asked with, and a
/// full build none.
pub proof fn lemma_compile_serves_trigger(session: Session, event: EventView)
    requires
        session.step(event).1.is_compile(),
    ensures
        session.stage matches StageView::Pausing { trigger, .. } && match trigger {
            TriggerView::Build => session.step(event).1 == ActionView::Build,
            TriggerView::Rebuild(change) => session.step(event).1 == (ActionView::Rebuild {
                changed: change.changed,
                deleted: change.deleted,
            }),
        },
{
}

/// A failed compile does not end the cycle: whether it succeeded or not,
/// the dependencies are read back next and the state is the same.
pub proof fn lemma_failed_compile_goes_on(session: Session)
    ensures
        session.step(EventView::Compiled { success: false }) == session.step(
            EventView::Compiled { success: true },
        ),
        session.stage is Compiling ==> session.step(EventView::Compiled { success: false }).1
            is ReadDependencies,
{
}

/// One cycle is in flight at a time: a trigger that arrives during a cycle
/// is queued behind those that wait, and the cycle goes on untouched.
pub proof fn lemma_trigger_waits_its_turn(
    session: Session,
    trigger: TriggerView,
    asked: std::time::SystemTime,
)
    requires
        session.busy(),
    ensures
        session.request(trigger, asked).1 is Standby,
        session.request(trigger, asked).0 == (Session {
            queue: session.queue.push(RequestView { trigger, asked }),
            ..session
        }),
{
}

/// A trigger that arrives while nothing is in flight and nothing waits
/// begins its cycle at once, with the pause.
pub proof fn lemma_trigger_begins_when_idle(
    session: Session,
    trigger: TriggerView,
    asked: std::time::SystemTime,
)
    requires
        session.stage is Idle,
        session.queue.len() == 0,
    ensures
        session.request(trigger, asked).1 is Pause,
        session.request(trigger, asked).0.stage == (StageView::Pausing { trigger, since: asked }),
        session.request(trigger, asked).0.queue.len() == 0,
{
    assert(session.queue.push(RequestView { trigger, asked }).remove(0) =~= session.queue);
}

/// One batch of changes that reaches an idle orchestrator leads to one
/// rebuild, with exactly the paths of the batch, each once: the pause is
/// asked for, and when it is done the rebuild, and nothing is left waiting.
pub proof fn lemma_one_batch_one_rebuild(
    session: Session,
    changed: Seq<PathText>,
    deleted: Seq<PathText>,
    asked: std::time::SystemTime,
)
    requires
        session.stage is Idle,
        session.queue.len() == 0,
    ensures
        ({
            let (pausing, first) = session.step(EventView::Rebuild { changed, deleted, asked });
            let (compiling, second) = pausing.step(EventView::Paused);
            &&& first is Pause
            &&& second matches ActionView::Rebuild { changed: handed_changed, deleted: handed_deleted }
            &&& handed_changed == distinct(changed)
            &&& handed_deleted == distinct(deleted)
            &&& handed_changed.to_set() == changed.to_set()
            &&& handed_deleted.to_set() == deleted.to_set()
            &&& handed_changed.no_duplicates()
            &&& handed_deleted.no_duplicates()
            &&& compiling.queue.len() == 0
        }),
{
    let trigger = TriggerView::Rebuild(
        ChangeEventView { changed: distinct(changed), deleted: distinct(deleted) },
    );
    assert(session.queue.push(RequestView { trigger, asked }).remove(0) =~= session.queue);
    lemma_distinct(changed);
    lemma_distinct(deleted);
}

/// A cycle runs the same course for every trigger and every outcome of the
/// compile: from an idle orchestrator the actions are the pause, the compile
/// for the trigger, the reading of the dependencies and the rearm, in this
/// order; the rearm counts changes from the instant the trigger was asked
/// for; and when the watcher is armed the orchestrator is idle again and
/// holds the dependencies that were read as its watch set.
pub proof fn lemma_cycle_runs_its_course(
    session: Session,
    trigger: TriggerView,
    asked: std::time::SystemTime,
    success: bool,
    files: Seq<PathText>,
    missing: Seq<PathText>,
    diagnostics: Seq<Seq<char>>,
)
    requires
        session.stage is Idle,
        session.queue.len() == 0,
    ensures
        ({
            let (pausing, pause) = session.request(trigger, asked);
            let (compiling, compile) = pausing.step(EventView::Paused);
            let (reading, read) = compiling.step(EventView::Compiled { success });
            let (arming, watch) = reading.step(
                EventView::Dependencies { files, missing, diagnostics },
            );
            let (idle, rest) = arming.step(EventView::Armed);
            &&& pause is Pause
            &&& compile == compile_action(trigger)
            &&& read is ReadDependencies
            &&& watch matches ActionView::Watch { files: file_paths, start_time, .. }
            &&& file_paths.watch == distinct(files)
            &&& start_time == asked
            &&& rest is Standby
            &&& idle == (Session { files: distinct(files), missing: distinct(missing), ..session })
        }),
{
    assert(session.queue.push(RequestView { trigger, asked }).remove(0) =~= session.queue);
}

/// The rearm replaces what was watched: whatever the watcher held before,
/// afterwards it holds exactly the paths that were read back from the
/// compilation, each once.  The paths to watch are all of the fresh ones,
/// and the paths to release are those watched before that are not among
/// them.
pub proof fn lemma_rearm_replaces_watch_set(
    session: Session,
    files: Seq<PathText>,
    missing: Seq<PathText>,
    diagnostics: Seq<Seq<char>>,
)
    requires
        session.stage is Reading,
    ensures
        ({
            let (after, action) = session.step(
                EventView::Dependencies { files, missing, diagnostics },
            );
            &&& after.files == distinct(files)
            &&& after.missing == distinct(missing)
            &&& after.files.to_set() == files.to_set()
            &&& after.missing.to_set() == missing.to_set()
            &&& action matches ActionView::Watch {
                files: file_paths,
                directories,
                missing: missing_paths,
                start_time,
                warnings,
            }
            &&& file_paths == replace_watch(session.files, after.files)
            &&& missing_paths == replace_watch(session.missing, after.missing)
            &&& directories.watch.len() == 0
            &&& directories.release.len() == 0
            &&& session.stage matches StageView::Reading { incremental, since }
            &&& start_time == since
            &&& warnings == if incremental {
                diagnostics
            } else {
                Seq::<Seq<char>>::empty()
            }
        }),
{
    lemma_distinct(files);
    lemma_distinct(missing);
}

/// Keeping each path once changes nothing but the repeats: the paths are
/// the same set, none occurs twice, and a list without repeats is kept as it
/// is.
pub proof fn lemma_distinct(paths: Seq<PathText>)
    ensures
        distinct(paths).no_duplicates(),
        distinct(paths).to_set() == paths.to_set(),
        forall|path: PathText| distinct(paths).contains(path) <==> paths.contains(path),
        distinct(paths).len() <= paths.len(),
        paths.no_duplicates() ==> distinct(paths) == paths,
    decreases paths.len(),
{
    if paths.len() == 0 {
        assert(distinct(paths).to_set() =~= paths.to_set());
    } else {
        let head = paths.drop_last();
        let kept = distinct(head);
        lemma_distinct(head);
        assert forall|path: PathText| distinct(paths).contains(path) <==> paths.contains(
            path,
        ) by {
            if paths.contains(path) {
                let i = choose|i: int| 0 <= i < paths.len() && paths[i] == path;
                if i < paths.len() - 1 {
                    assert(head[i] == path);
                    assert(head.contains(path));
                    assert(kept.contains(path));
                    let k = choose|k: int| 0 <= k < kept.len() && kept[k] == path;
                    assert(distinct(paths)[k] == path);
                } else if !kept.contains(paths.last()) {
                    assert(distinct(paths)[kept.len() as int] == path);
                } else {
                    let k = choose|k: int| 0 <= k < kept.len() && kept[k] == path;
                    assert(distinct(paths)[k] == path);
                }
            }
            if distinct(paths).contains(path) {
                let k = choose|k: int| 0 <= k < distinct(paths).len() && distinct(paths)[k] == path;
                if k < kept.len() {
                    assert(kept[k] == path);
                    assert(kept.contains(path));
                    assert(head.contains(path));
                    let i = choose|i: int| 0 <= i < head.len() && head[i] == path;
                    assert(paths[i] == path);
                } else {
                    assert(paths[paths.len() - 1] == path);
                }
            }
        }
        assert(distinct(paths).to_set() =~= paths.to_set());
        if paths.no_duplicates() {
            assert(head.no_duplicates());
            assert(!kept.contains(paths.last())) by {
                if kept.contains(paths.last()) {
                    let i = choose|i: int| 0 <= i < head.len() && head[i] == paths.last();
                    assert(paths[i] == paths[paths.len() - 1]);
                }
            }
            assert(distinct(paths) =~= paths);
        }
    }
}

/// The stale paths of a list without repeats are without repeats.
pub proof fn lemma_stale_has_no_duplicates(watched: Seq<PathText>, fresh: Seq<PathText>)
    requires
        watched.no_duplicates(),
    ensures
        stale(watched, fresh).no_duplicates(),
    decreases watched.len(),
{
    reveal(Seq::filter);
    let keep = |path: PathText| !fresh.contains(path);
    if watched.len() > 0 {
        let head = watched.drop_last();
        lemma_stale_has_no_duplicates(head, fresh);
        if keep(watched.last()) {
            assert(!head.filter(keep).contains(watched.last())) by {
                if head.filter(keep).contains(watched.last()) {
                    head.lemma_filter_contains_rev(keep, watched.last());
                    let i = choose|i: int| 0 <= i < head.len() && head[i] == watched.last();
                    assert(watched[i] == watched[watched.len() - 1]);
                }
            }
        }
    }
}

/// No list of paths holds a path twice, at any step: where the session was
/// well-formed it stays so, and the paths that an action hands on, to the
/// compiler or to the watcher, are without repeats.
pub proof fn lemma_paths_stay_distinct(session: Session, event: EventView)
    requires
        session.well_formed(),
    ensures
        session.step(event).0.well_formed(),
        match session.step(event).1 {
            ActionView::Rebuild { changed, deleted } => changed.no_duplicates()
                && deleted.no_duplicates(),
            ActionView::Watch { files, directories, missing, .. } => {
                &&& files.watch.no_duplicates()
                &&& files.release.no_duplicates()
                &&& missing.watch.no_duplicates()
                &&& missing.release.no_duplicates()
                &&& directories.watch.no_duplicates()
                &&& directories.release.no_duplicates()
            },
            _ => true,
        },
{
    match event {
        EventView::Rebuild { changed, deleted, asked } => {
            lemma_distinct(changed);
            lemma_distinct(deleted);
        },
        EventView::Dependencies { files, missing, diagnostics } => {
            lemma_distinct(files);
            lemma_distinct(missing);
            lemma_stale_has_no_duplicates(session.files, distinct(files));
            lemma_stale_has_no_duplicates(session.missing, distinct(missing));
        },
        _ => {},
    }
}

/// For every run from a well-formed session, and so for every run from a
/// new orchestrator: the session stays well-formed.
pub proof fn lemma_run_stays_well_formed(session: Session, events: Seq<EventView>)
    requires
        session.well_formed(),
    ensures
        session.run(events).well_formed(),
    decreases events.len(),
{
    if events.len() > 0 {
        lemma_run_stays_well_formed(session, events.drop_last());
        lemma_paths_stay_distinct(session.run(events.drop_last()), events.last());
    }
}

/// Watching the fresh paths and releasing the stale ones leaves exactly the
/// fresh paths watched: no path of an earlier cycle stays because it was
/// there, and none is released that is still depended on.
pub proof fn lemma_replace_watch_is_fresh(watched: Seq<PathText>, fresh: Seq<PathText>)
    ensures
        ({
            let paths = replace_watch(watched, fresh);
            &&& paths.watch == fresh
            &&& (watched.to_set() + paths.watch.to_set()).difference(paths.release.to_set())
                == fresh.to_set()
            &&& paths.release.to_set() == watched.to_set().difference(fresh.to_set())
        }),
{
    broadcast use vstd::seq_lib::group_filter_ensures;

    let keep = |path: PathText| !fresh.contains(path);
    let release = stale(watched, fresh);
    assert forall|path: PathText| release.contains(path) <==> (watched.contains(path)
        && !fresh.contains(path)) by {
        if release.contains(path) {
            watched.lemma_filter_contains_rev(keep, path);
            let i = choose|i: int| 0 <= i < release.len() && release[i] == path;
            watched.lemma_filter_pred(keep, i);
        }
        if watched.contains(path) && !fresh.contains(path) {
            let i = choose|i: int| 0 <= i < watched.len() && watched[i] == path;
            watched.lemma_filter_contains(keep, i);
        }
    }
    assert(release.to_set() =~= watched.to_set().difference(fresh.to_set()));
    assert((watched.to_set() + fresh.to_set()).difference(release.to_set()) =~= fresh.to_set());
}

/// A run can be cut at any event: the state after the whole is the state
/// after the rest, begun where the first part ended.
pub proof fn lemma_run_take(session: Session, events: Seq<EventView>, i: int)
    requires
        0 <= i < events.len(),
    ensures
        session.run(events.take(i + 1)) == session.run(events.take(i)).step(events[i]).0,
{
    let upto = events.take(i + 1);
    assert(upto.drop_last() =~= events.take(i));
    assert(upto.last() == events[i]);
}

/// For every run: while a cycle counts on its pause, the watcher is paused
/// as the actions of the run leave it.
proof fn lemma_pause_is_held(session: Session, paused: bool, events: Seq<EventView>)
    requires
        session.holds_pause() ==> paused,
    ensures
        session.run(events).holds_pause() ==> paused_after(paused, session.trace(events)),
    decreases events.len(),
{
    let trace = session.trace(events);
    if events.len() == 0 {
        assert(trace =~= Seq::<ActionView>::empty());
    } else {
        let head = events.drop_last();
        let before = session.run(head);
        lemma_pause_is_held(session, paused, head);
        lemma_action_in_its_place(before, events.last());
        assert(events.take(events.len() - 1) =~= head);
        assert(trace.drop_last() =~= session.trace(head)) by {
            assert forall|k: int| 0 <= k < head.len() implies session.trace(head)[k]
                == trace[k] by {
                assert(head.take(k) =~= events.take(k));
            }
        }
        assert(trace.last() == before.step(events.last()).1);
    }
}

/// For every sequence of events that reaches the orchestrator, and every
/// event of it: a compile is asked for only in answer to a completed pause,
/// with the watcher paused and not resumed since; the watcher stays paused
/// for as long as the compiler may be at work; and the rearm that resumes it
/// is asked for only after the compile has returned and its dependencies
/// have been read.
pub proof fn lemma_compile_runs_paused(
    session: Session,
    paused: bool,
    events: Seq<EventView>,
    i: int,
)
    requires
        session.holds_pause() ==> paused,
        0 <= i < events.len(),
    ensures
        ({
            let before = session.run(events.take(i));
            let (after, action) = before.step(events[i]);
            let trace = session.trace(events);
            &&& action == trace[i]
            &&& action.is_compile() ==> events[i] is Paused && paused_after(
                paused,
                trace.take(i),
            )
            &&& after.compiling() ==> paused_after(paused, trace.take(i + 1))
            &&& action is Watch ==> before.stage is Reading && events[i] is Dependencies
            &&& action is Pause ==> !before.compiling()
        }),
{
    let head = events.take(i);
    let upto = events.take(i + 1);
    let before = session.run(head);
    let trace = session.trace(events);
    lemma_action_in_its_place(before, events[i]);
    lemma_run_take(session, events, i);
    lemma_pause_is_held(session, paused, head);
    lemma_pause_is_held(session, paused, upto);
    assert(trace.take(i) =~= session.trace(head)) by {
        assert forall|k: int| 0 <= k < i implies session.trace(head)[k] == trace[k] by {
            assert(head.take(k) =~= events.take(k));
        }
    }
    assert(trace.take(i + 1) =~= session.trace(upto)) by {
        assert forall|k: int| 0 <= k < i + 1 implies session.trace(upto)[k] == trace[k] by {
            assert(upto.take(k) =~= events.take(k));
        }
    }
}

} // verus!
