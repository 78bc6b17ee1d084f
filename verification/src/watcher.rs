//! The watching orchestrator.
//!
//! The orchestrator sequences build cycles.  A cycle pauses the watcher,
//! compiles (a full build, or a rebuild with the changed and deleted paths
//! that triggered it), reads back the dependencies of the new compilation and
//! rearms the watcher on exactly those.  One cycle is in flight at a time;
//! triggers that arrive meanwhile wait their turn.
//!
//! The compiler and the watcher are outside this library.  The orchestrator
//! is a state machine: each call hands back the [`Action`] that is to be
//! performed next, and [`Watching::advance`] takes the [`Outcome`] of the
//! action when it has completed.

use std::time::SystemTime;
use vstd::prelude::*;

use crate::asset::joined_path;
use crate::asset::AssetQuery;
use crate::order::lemma_paths_stay_distinct;

verus! {

/// A point in time, as the system clock gives it.  The orchestrator carries
/// the start of a cycle from the pause to the rearm and never looks inside.
#[verifier::external_type_specification]
#[verifier::external_body]
pub struct ExSystemTime(SystemTime);

/// A path as contracts speak of it.
pub type PathText = Seq<char>;

/// How the watcher observes the file system.
#[derive(Debug, Clone, Copy, PartialEq, Eq, Structural)]
pub struct WatcherOptions {
    /// Whether symbolic links are followed.
    pub follow_symlinks: bool,
    /// The interval between polls, in milliseconds; `None` leaves the
    /// watcher's own choice.
    pub poll_interval: Option<u32>,
    /// The length of the debounce window, in milliseconds; `None` leaves the
    /// watcher's own choice.
    pub aggregate_timeout: Option<u32>,
}

/// Which paths the watcher passes over.
#[derive(Debug, PartialEq, Eq)]
pub enum Ignored {
    /// Nothing is passed over.
    Nothing,
    /// Paths that match this glob.
    Path(String),
    /// Paths that match one of these globs.
    Paths(Vec<String>),
    /// Paths that match the regular expression `source` under `flags`.
    Regex { source: String, flags: String },
}

/// [`Ignored`] as contracts speak of it.
#[verifier::ext_equal]
pub enum IgnoredView {
    Nothing,
    Path(PathText),
    Paths(Seq<PathText>),
    Regex { source: Seq<char>, flags: Seq<char> },
}

impl View for Ignored {
    type V = IgnoredView;

    open spec fn view(&self) -> IgnoredView {
        match self {
            Ignored::Nothing => IgnoredView::Nothing,
            Ignored::Path(glob) => IgnoredView::Path(glob@),
            Ignored::Paths(globs) => IgnoredView::Paths(globs.deep_view()),
            Ignored::Regex { source, flags } => IgnoredView::Regex {
                source: source@,
                flags: flags@,
            },
        }
    }
}

/// The watcher options used where none are given: symbolic links are not
/// followed, and the poll interval and the debounce window are left to the
/// watcher.
pub open spec fn default_options() -> WatcherOptions {
    WatcherOptions { follow_symlinks: false, poll_interval: None, aggregate_timeout: None }
}

/// The policy used where none is given: whatever lies in a `.git` or a
/// `node_modules` directory is passed over.
pub open spec fn default_ignored() -> IgnoredView {
    IgnoredView::Regex {
        source: r#"[\/](?:\.git|node_modules)[\/]"#@,
        flags: Seq::<char>::empty(),
    }
}

/// One aggregated batch of file-system changes, as the watcher delivers it
/// when its debounce window closes.  The paths of a batch are sets: the
/// orchestrator keeps each path once, however often it was given.
#[derive(Debug, PartialEq, Eq)]
pub struct ChangeEvent {
    /// The paths that changed.
    pub changed: Vec<String>,
    /// The paths that were deleted.
    pub deleted: Vec<String>,
}

/// [`ChangeEvent`] as contracts speak of it.
#[verifier::ext_equal]
pub struct ChangeEventView {
    pub changed: Seq<PathText>,
    pub deleted: Seq<PathText>,
}

impl View for ChangeEvent {
    type V = ChangeEventView;

    open spec fn view(&self) -> ChangeEventView {
        ChangeEventView { changed: self.changed.deep_view(), deleted: self.deleted.deep_view() }
    }
}

impl ChangeEventView {
    /// Whether no path occurs twice among the changed ones, nor among the
    /// deleted ones.
    pub open spec fn well_formed(self) -> bool {
        self.changed.no_duplicates() && self.deleted.no_duplicates()
    }
}

/// What asks for a build cycle.
#[derive(Debug, PartialEq, Eq)]
pub enum Trigger {
    /// A full build.
    Build,
    /// An incremental rebuild for one batch of changes.
    Rebuild(ChangeEvent),
}

/// [`Trigger`] as contracts speak of it.
#[verifier::ext_equal]
pub enum TriggerView {
    Build,
    Rebuild(ChangeEventView),
}

impl View for Trigger {
    type V = TriggerView;

    open spec fn view(&self) -> TriggerView {
        match self {
            Trigger::Build => TriggerView::Build,
            Trigger::Rebuild(event) => TriggerView::Rebuild(event@),
        }
    }
}

impl TriggerView {
    /// Whether the batch of a rebuild holds no path twice.
    pub open spec fn well_formed(self) -> bool {
        self matches TriggerView::Rebuild(change) ==> change.well_formed()
    }
}

/// A trigger that waits for its cycle, and the instant it was asked for.
#[derive(Debug)]
struct Request {
    trigger: Trigger,
    asked: SystemTime,
}

/// A trigger that waits for its cycle, as contracts speak of it.
#[verifier::ext_equal]
pub struct RequestView {
    pub trigger: TriggerView,
    /// The instant the trigger was asked for: changes after it matter to
    /// the cycle.
    pub asked: SystemTime,
}

impl View for Request {
    type V = RequestView;

    closed spec fn view(&self) -> RequestView {
        RequestView { trigger: self.trigger@, asked: self.asked }
    }
}

/// Where the cycle in flight stands.
#[derive(Debug)]
enum Stage {
    Idle,
    Pausing { trigger: Trigger, since: SystemTime },
    Compiling { incremental: bool, since: SystemTime },
    Reading { incremental: bool, since: SystemTime },
    Arming,
}

/// Where the cycle in flight stands, as contracts speak of it.
#[verifier::ext_equal]
pub enum StageView {
    /// No cycle is in flight.
    Idle,
    /// The watcher was asked to pause; the cycle will compile for `trigger`.
    /// `since` is the instant the trigger was asked for.
    Pausing { trigger: TriggerView, since: SystemTime },
    /// The compiler is at work while the watcher is paused.
    Compiling { incremental: bool, since: SystemTime },
    /// The compiler is done and its dependencies are being read back; the
    /// watcher is still paused.
    Reading { incremental: bool, since: SystemTime },
    /// The watcher was asked to watch the fresh dependencies.
    Arming,
}

impl View for Stage {
    type V = StageView;

    closed spec fn view(&self) -> StageView {
        match self {
            Stage::Idle => StageView::Idle,
            Stage::Pausing { trigger, since } => StageView::Pausing {
                trigger: trigger@,
                since: *since,
            },
            Stage::Compiling { incremental, since } => StageView::Compiling {
                incremental: *incremental,
                since: *since,
            },
            Stage::Reading { incremental, since } => StageView::Reading {
                incremental: *incremental,
                since: *since,
            },
            Stage::Arming => StageView::Arming,
        }
    }
}

/// The stage of the cycle in flight, without what it carries.
#[derive(Debug, Clone, Copy, PartialEq, Eq, Structural)]
pub enum Phase {
    Idle,
    Pausing,
    Compiling,
    Reading,
    Arming,
}

impl StageView {
    /// The stage without what it carries.
    pub open spec fn phase(self) -> Phase {
        match self {
            StageView::Idle => Phase::Idle,
            StageView::Pausing { .. } => Phase::Pausing,
            StageView::Compiling { .. } => Phase::Compiling,
            StageView::Reading { .. } => Phase::Reading,
            StageView::Arming => Phase::Arming,
        }
    }
}

/// What came of the action that the orchestrator asked for last.
#[derive(Debug, PartialEq, Eq)]
pub enum Outcome {
    /// The watcher is paused.
    Paused,
    /// The compiler returned.  A failed build is no fault of the cycle: it
    /// goes on either way.
    Compiled { success: bool },
    /// The file and missing dependencies of the compilation as it now
    /// stands, and all the diagnostics it gathered, taken out of it.
    Dependencies { files: Vec<String>, missing: Vec<String>, diagnostics: Vec<String> },
    /// The watcher watches the paths it was given.
    Armed,
}

/// What reaches the orchestrator, as contracts speak of it: a request for a
/// cycle, or the outcome of an action.
#[verifier::ext_equal]
pub enum EventView {
    /// Nothing happened; a trigger that waits may be taken up.
    Wake,
    /// A full build is asked for at the instant `asked`.
    Build { asked: SystemTime },
    /// A rebuild for the paths that changed and the paths that were deleted
    /// is asked for at the instant `asked`.
    Rebuild { changed: Seq<PathText>, deleted: Seq<PathText>, asked: SystemTime },
    Paused,
    Compiled { success: bool },
    Dependencies { files: Seq<PathText>, missing: Seq<PathText>, diagnostics: Seq<Seq<char>> },
    Armed,
}

impl View for Outcome {
    type V = EventView;

    open spec fn view(&self) -> EventView {
        match self {
            Outcome::Paused => EventView::Paused,
            Outcome::Compiled { success } => EventView::Compiled { success: *success },
            Outcome::Dependencies { files, missing, diagnostics } => EventView::Dependencies {
                files: files.deep_view(),
                missing: missing.deep_view(),
                diagnostics: diagnostics.deep_view(),
            },
            Outcome::Armed => EventView::Armed,
        }
    }
}

/// The paths of one kind that a rearm hands to the watcher.
#[derive(Debug, PartialEq, Eq)]
pub struct WatchPaths {
    /// The paths to watch from now on: all of them, not only the new ones.
    pub watch: Vec<String>,
    /// The paths that were watched until now and are to be let go.
    pub release: Vec<String>,
}

/// [`WatchPaths`] as contracts speak of it.
#[verifier::ext_equal]
pub struct WatchPathsView {
    pub watch: Seq<PathText>,
    pub release: Seq<PathText>,
}

impl View for WatchPaths {
    type V = WatchPathsView;

    open spec fn view(&self) -> WatchPathsView {
        WatchPathsView { watch: self.watch.deep_view(), release: self.release.deep_view() }
    }
}

/// What the orchestrator asks to be done next.
#[derive(Debug, PartialEq, Eq)]
pub enum Action {
    /// Nothing new: either no cycle is in flight, or the action asked for
    /// earlier is still due.
    Standby,
    /// Pause the watcher.
    Pause,
    /// Run a full build.
    Build,
    /// Run an incremental rebuild with exactly these paths, none of which
    /// occurs twice in its list.
    Rebuild { changed: Vec<String>, deleted: Vec<String> },
    /// Read the file and missing dependencies, and the diagnostics, from the
    /// compilation as it now stands.
    ReadDependencies,
    /// Log the warnings, then have the watcher watch exactly these paths,
    /// counting changes from `start_time` on.  No path occurs twice in a
    /// list.
    Watch {
        files: WatchPaths,
        directories: WatchPaths,
        missing: WatchPaths,
        start_time: SystemTime,
        warnings: Vec<String>,
    },
}

/// [`Action`] as contracts speak of it.
#[verifier::ext_equal]
pub enum ActionView {
    Standby,
    Pause,
    Build,
    Rebuild { changed: Seq<PathText>, deleted: Seq<PathText> },
    ReadDependencies,
    Watch {
        files: WatchPathsView,
        directories: WatchPathsView,
        missing: WatchPathsView,
        start_time: SystemTime,
        warnings: Seq<Seq<char>>,
    },
}

impl View for Action {
    type V = ActionView;

    open spec fn view(&self) -> ActionView {
        match self {
            Action::Standby => ActionView::Standby,
            Action::Pause => ActionView::Pause,
            Action::Build => ActionView::Build,
            Action::Rebuild { changed, deleted } => ActionView::Rebuild {
                changed: changed.deep_view(),
                deleted: deleted.deep_view(),
            },
            Action::ReadDependencies => ActionView::ReadDependencies,
            Action::Watch { files, directories, missing, start_time, warnings } => ActionView::Watch {
                files: files@,
                directories: directories@,
                missing: missing@,
                start_time: *start_time,
                warnings: warnings.deep_view(),
            },
        }
    }
}

/// The state of the orchestrator as contracts speak of it.
#[verifier::ext_equal]
pub struct Session {
    /// The directory of the output store that assets are resolved against.
    pub output_path: PathText,
    pub options: WatcherOptions,
    pub ignored: IgnoredView,
    /// Where the cycle in flight stands.
    pub stage: StageView,
    /// The triggers that wait for their cycle, the oldest first.
    pub queue: Seq<RequestView>,
    /// The files the watcher was last armed on.
    pub files: Seq<PathText>,
    /// The missing paths the watcher was last armed on.
    pub missing: Seq<PathText>,
}

/// `paths` with each path kept where it first occurs and left out where it
/// occurs again: the set of the paths, in the order they were given.
pub open spec fn distinct(paths: Seq<PathText>) -> Seq<PathText>
    decreases paths.len(),
{
    if paths.len() == 0 {
        paths
    } else {
        let kept = distinct(paths.drop_last());
        if kept.contains(paths.last()) {
            kept
        } else {
            kept.push(paths.last())
        }
    }
}

/// The paths of `watched` that `fresh` no longer holds, in their order.
pub open spec fn stale(watched: Seq<PathText>, fresh: Seq<PathText>) -> Seq<PathText> {
    watched.filter(|path: PathText| !fresh.contains(path))
}

/// The rearm that replaces `watched` by `fresh`.
pub open spec fn replace_watch(watched: Seq<PathText>, fresh: Seq<PathText>) -> WatchPathsView {
    WatchPathsView { watch: fresh, release: stale(watched, fresh) }
}

/// The compile action that serves `trigger`.
pub open spec fn compile_action(trigger: TriggerView) -> ActionView {
    match trigger {
        TriggerView::Build => ActionView::Build,
        TriggerView::Rebuild(event) => ActionView::Rebuild {
            changed: event.changed,
            deleted: event.deleted,
        },
    }
}

impl Session {
    /// Whether no list of paths that the session holds has a path twice.
    pub open spec fn well_formed(self) -> bool {
        &&& self.files.no_duplicates()
        &&& self.missing.no_duplicates()
        &&& forall|i: int| 0 <= i < self.queue.len() ==> (#[trigger] self.queue[i]).trigger.well_formed()
        &&& self.stage matches StageView::Pausing { trigger, .. } ==> trigger.well_formed()
    }

    /// Takes up the oldest waiting trigger where no cycle is in flight.
    pub open spec fn start_next(self) -> (Session, ActionView) {
        if self.stage is Idle && self.queue.len() > 0 {
            (
                Session {
                    stage: StageView::Pausing {
                        trigger: self.queue[0].trigger,
                        since: self.queue[0].asked,
                    },
                    queue: self.queue.remove(0),
                    ..self
                },
                ActionView::Pause,
            )
        } else {
            (self, ActionView::Standby)
        }
    }

    /// Queues `trigger`, asked for at `asked`, and takes it up at once where
    /// no cycle is in flight and nothing older waits.
    pub open spec fn request(self, trigger: TriggerView, asked: SystemTime) -> (
        Session,
        ActionView,
    ) {
        Session { queue: self.queue.push(RequestView { trigger, asked }), ..self }.start_next()
    }

    /// The state after `event`, and the action it calls for.  An outcome
    /// that the stage does not wait for changes nothing.
    pub open spec fn step(self, event: EventView) -> (Session, ActionView) {
        match event {
            EventView::Wake => self.start_next(),
            EventView::Build { asked } => self.request(TriggerView::Build, asked),
            EventView::Rebuild { changed, deleted, asked } => self.request(
                TriggerView::Rebuild(
                    ChangeEventView { changed: distinct(changed), deleted: distinct(deleted) },
                ),
                asked,
            ),
            EventView::Paused => match self.stage {
                StageView::Pausing { trigger, since } => (
                    Session {
                        stage: StageView::Compiling { incremental: trigger is Rebuild, since },
                        ..self
                    },
                    compile_action(trigger),
                ),
                _ => (self, ActionView::Standby),
            },
            EventView::Compiled { success } => match self.stage {
                StageView::Compiling { incremental, since } => (
                    Session { stage: StageView::Reading { incremental, since }, ..self },
                    ActionView::ReadDependencies,
                ),
                _ => (self, ActionView::Standby),
            },
            EventView::Dependencies { files, missing, diagnostics } => match self.stage {
                StageView::Reading { incremental, since } => (
                    Session {
                        stage: StageView::Arming,
                        files: distinct(files),
                        missing: distinct(missing),
                        ..self
                    },
                    ActionView::Watch {
                        files: replace_watch(self.files, distinct(files)),
                        directories: WatchPathsView { watch: seq![], release: seq![] },
                        missing: replace_watch(self.missing, distinct(missing)),
                        start_time: since,
                        warnings: if incremental {
                            diagnostics
                        } else {
                            seq![]
                        },
                    },
                ),
                _ => (self, ActionView::Standby),
            },
            EventView::Armed => match self.stage {
                StageView::Arming => Session { stage: StageView::Idle, ..self }.start_next(),
                _ => (self, ActionView::Standby),
            },
        }
    }
}

/// A copy of `paths`.
fn clone_paths(paths: &Vec<String>) -> (copy: Vec<String>)
    ensures
        copy.deep_view() == paths.deep_view(),
{
    let mut copy: Vec<String> = Vec::new();
    let mut i: usize = 0;
    while i < paths.len()
        invariant
            i <= paths.len(),
            copy.len() == i,
            forall|k: int| 0 <= k < i ==> copy[k]@ == paths[k]@,
        decreases paths.len() - i,
    {
        copy.push(paths[i].clone());
        i += 1;
    }
    assert(copy.deep_view() =~= paths.deep_view());
    copy
}

/// Whether `paths` holds `path`.
fn holds_path(paths: &Vec<String>, path: &String) -> (found: bool)
    ensures
        found == paths.deep_view().contains(path@),
{
    let mut i: usize = 0;
    while i < paths.len()
        invariant
            i <= paths.len(),
            forall|k: int| 0 <= k < i ==> paths[k]@ != path@,
        decreases paths.len() - i,
    {
        if paths[i] == *path {
            assert(paths.deep_view()[i as int] == path@);
            return true;
        }
        i += 1;
    }
    assert forall|k: int| 0 <= k < paths.deep_view().len() implies paths.deep_view()[k]
        != path@ by {
        assert(paths.deep_view()[k] == paths[k]@);
    }
    false
}

/// `paths` with each path kept once, where it first occurs.
fn distinct_paths(paths: Vec<String>) -> (kept: Vec<String>)
    ensures
        kept.deep_view() == distinct(paths.deep_view()),
{
    let mut kept: Vec<String> = Vec::new();
    let mut i: usize = 0;
    assert(paths.deep_view().take(0) =~= Seq::<PathText>::empty());
    assert(kept.deep_view() =~= Seq::<PathText>::empty());
    while i < paths.len()
        invariant
            i <= paths.len(),
            kept.deep_view() == distinct(paths.deep_view().take(i as int)),
        decreases paths.len() - i,
    {
        let ghost before = kept.deep_view();
        let ghost prefix = paths.deep_view().take(i as int);
        let found = holds_path(&kept, &paths[i]);
        proof {
            let next = paths.deep_view().take(i as int + 1);
            assert(next.drop_last() =~= prefix);
            assert(next.last() == paths[i as int]@);
        }
        if !found {
            kept.push(paths[i].clone());
            assert(kept.deep_view() =~= before.push(paths[i as int]@));
        }
        i += 1;
    }
    assert(paths.deep_view().take(i as int) =~= paths.deep_view());
    kept
}

/// The paths of `watched` that `fresh` no longer holds.
fn stale_paths(watched: &Vec<String>, fresh: &Vec<String>) -> (gone: Vec<String>)
    ensures
        gone.deep_view() == stale(watched.deep_view(), fresh.deep_view()),
{
    let ghost keep = |path: PathText| !fresh.deep_view().contains(path);
    let mut gone: Vec<String> = Vec::new();
    let mut i: usize = 0;
    assert(watched.deep_view().take(0) =~= Seq::<PathText>::empty());
    assert(gone.deep_view() =~= Seq::<PathText>::empty());
    while i < watched.len()
        invariant
            i <= watched.len(),
            keep == |path: PathText| !fresh.deep_view().contains(path),
            gone.deep_view() == watched.deep_view().take(i as int).filter(keep),
        decreases watched.len() - i,
    {
        let ghost before = gone.deep_view();
        let ghost prefix = watched.deep_view().take(i as int);
        let found = holds_path(fresh, &watched[i]);
        proof {
            let next = watched.deep_view().take(i as int + 1);
            assert(next.drop_last() =~= prefix);
            assert(next.last() == watched[i as int]@);
            reveal(Seq::filter);
        }
        if !found {
            gone.push(watched[i].clone());
            assert(gone.deep_view() =~= before.push(watched[i as int]@));
        }
        i += 1;
    }
    assert(watched.deep_view().take(i as int) =~= watched.deep_view());
    gone
}

/// The rearm that replaces the watch on `watched` by one on `fresh`.
fn replace_paths(watched: &Vec<String>, fresh: &Vec<String>) -> (paths: WatchPaths)
    ensures
        paths@ == replace_watch(watched.deep_view(), fresh.deep_view()),
{
    WatchPaths { watch: clone_paths(fresh), release: stale_paths(watched, fresh) }
}

/// The orchestrator of one build session.
#[derive(Debug)]
pub struct Watching {
    output_path: String,
    options: WatcherOptions,
    ignored: Ignored,
    stage: Stage,
    queue: Vec<Request>,
    files: Vec<String>,
    missing: Vec<String>,
}

impl View for Watching {
    type V = Session;

    closed spec fn view(&self) -> Session {
        Session {
            output_path: self.output_path@,
            options: self.options,
            ignored: self.ignored@,
            stage: self.stage@,
            queue: Seq::new(self.queue@.len(), |i: int| self.queue@[i]@),
            files: self.files.deep_view(),
            missing: self.missing.deep_view(),
        }
    }
}

/// The session of a new orchestrator: the options and the policy that were
/// given, or the defaults; nothing watched; and the initial build scheduled
/// at the instant `now`, not yet begun.
pub open spec fn initial_session(
    output_path: PathText,
    options: Option<WatcherOptions>,
    ignored: Option<IgnoredView>,
    now: SystemTime,
) -> Session {
    Session {
        output_path,
        options: match options {
            Some(given) => given,
            None => default_options(),
        },
        ignored: match ignored {
            Some(given) => given,
            None => default_ignored(),
        },
        stage: StageView::Idle,
        queue: seq![RequestView { trigger: TriggerView::Build, asked: now }],
        files: seq![],
        missing: seq![],
    }
}

/// The view of an optional policy.
pub open spec fn ignored_view(ignored: Option<Ignored>) -> Option<IgnoredView> {
    match ignored {
        Some(given) => Some(given@),
        None => None,
    }
}

impl Watching {
    /// An orchestrator for a compiler that writes below `output_path`.
    ///
    /// Where `options` or `ignored` is `None` the default stands in: no
    /// following of symbolic links and the watcher's own timing; and a
    /// policy that passes over `.git` and `node_modules` directories.  The
    /// initial build is scheduled as of `now` and nothing is begun: the
    /// handle can serve lookups at once, and [`Watching::start`] begins the
    /// build.
    pub fn new(
        output_path: &str,
        options: Option<WatcherOptions>,
        ignored: Option<Ignored>,
        now: SystemTime,
    ) -> (watching: Watching)
        ensures
            watching@ == initial_session(output_path@, options, ignored_view(ignored), now),
            watching@.well_formed(),
    {
        let options = match options {
            Some(given) => given,
            None => WatcherOptions {
                follow_symlinks: false,
                poll_interval: None,
                aggregate_timeout: None,
            },
        };
        let ignored = match ignored {
            Some(given) => given,
            None => Ignored::Regex {
                source: r#"[\/](?:\.git|node_modules)[\/]"#.to_owned(),
                flags: String::new(),
            },
        };
        let mut queue: Vec<Request> = Vec::new();
        queue.push(Request { trigger: Trigger::Build, asked: now });
        let watching = Watching {
            output_path: output_path.to_owned(),
            options,
            ignored,
            stage: Stage::Idle,
            queue,
            files: Vec::new(),
            missing: Vec::new(),
        };
        assert(watching@.queue =~= seq![RequestView { trigger: TriggerView::Build, asked: now }]);
        assert(watching@.files =~= seq![]);
        assert(watching@.missing =~= seq![]);
        watching
    }

    /// Takes up the oldest waiting trigger where no cycle is in flight.
    fn start_next(&mut self) -> (action: Action)
        ensures
            (final(self)@, action@) == old(self)@.start_next(),
    {
        let idle = match &self.stage {
            Stage::Idle => true,
            _ => false,
        };
        if idle && self.queue.len() > 0 {
            let ghost waiting = self@.queue;
            let next = self.queue.remove(0);
            self.stage = Stage::Pausing { trigger: next.trigger, since: next.asked };
            assert(self@.queue =~= waiting.remove(0));
            Action::Pause
        } else {
            Action::Standby
        }
    }

    /// Queues `trigger` and takes up the oldest waiting trigger where no
    /// cycle is in flight.
    fn request(&mut self, trigger: Trigger, asked: SystemTime) -> (action: Action)
        ensures
            (final(self)@, action@) == old(self)@.request(trigger@, asked),
    {
        let ghost waiting = self@.queue;
        self.queue.push(Request { trigger, asked });
        assert(self@.queue =~= waiting.push(RequestView { trigger: trigger@, asked }));
        self.start_next()
    }

    /// Begins the cycle of the oldest waiting trigger, unless a cycle is in
    /// flight or nothing waits.  After [`Watching::new`] this begins the
    /// initial build.
    pub fn start(&mut self) -> (action: Action)
        ensures
            (final(self)@, action@) == old(self)@.step(EventView::Wake),
            old(self)@.well_formed() ==> final(self)@.well_formed(),
    {
        proof {
            if self@.well_formed() {
                lemma_paths_stay_distinct(self@, EventView::Wake);
            }
        }
        self.start_next()
    }

    /// Asks for a full build.  `now` is the instant of the asking: the
    /// rearm that ends the cycle counts changes from it on.
    ///
    /// Where no cycle is in flight and nothing older waits, the cycle begins
    /// and the action is [`Action::Pause`]; else the build waits its turn
    /// and the action is [`Action::Standby`].
    pub fn build(&mut self, now: SystemTime) -> (action: Action)
        ensures
            (final(self)@, action@) == old(self)@.step(EventView::Build { asked: now }),
            old(self)@.well_formed() ==> final(self)@.well_formed(),
    {
        proof {
            if self@.well_formed() {
                lemma_paths_stay_distinct(self@, EventView::Build { asked: now });
            }
        }
        self.request(Trigger::Build, now)
    }

    /// Asks for an incremental rebuild for the paths that changed and the
    /// paths that were deleted.  The two lists are taken as sets: a path
    /// that is given more than once is kept once.  The cycle hands exactly
    /// these paths to the compiler, in [`Action::Rebuild`].  `now` is the
    /// instant of the asking: the rearm that ends the cycle counts changes
    /// from it on.
    ///
    /// Where no cycle is in flight and nothing older waits, the cycle begins
    /// and the action is [`Action::Pause`]; else the rebuild waits its turn
    /// and the action is [`Action::Standby`].
    pub fn rebuild(&mut self, changed: Vec<String>, deleted: Vec<String>, now: SystemTime) -> (action:
        Action)
        ensures
            (final(self)@, action@) == old(self)@.step(
                EventView::Rebuild {
                    changed: changed.deep_view(),
                    deleted: deleted.deep_view(),
                    asked: now,
                },
            ),
            old(self)@.well_formed() ==> final(self)@.well_formed(),
    {
        proof {
            if self@.well_formed() {
                lemma_paths_stay_distinct(
                    self@,
                    EventView::Rebuild {
                        changed: changed.deep_view(),
                        deleted: deleted.deep_view(),
                        asked: now,
                    },
                );
            }
        }
        let change = ChangeEvent {
            changed: distinct_paths(changed),
            deleted: distinct_paths(deleted),
        };
        self.request(Trigger::Rebuild(change), now)
    }

    /// Takes one aggregated batch of changes from the watcher: a rebuild for
    /// exactly that batch is asked for, and the call returns without waiting
    /// for it.
    pub fn on_event_handle(
        &mut self,
        changed_files: Vec<String>,
        deleted_files: Vec<String>,
        now: SystemTime,
    ) -> (action: Action)
        ensures
            (final(self)@, action@) == old(self)@.step(
                EventView::Rebuild {
                    changed: changed_files.deep_view(),
                    deleted: deleted_files.deep_view(),
                    asked: now,
                },
            ),
            old(self)@.well_formed() ==> final(self)@.well_formed(),
    {
        self.rebuild(changed_files, deleted_files, now)
    }

    /// Takes the outcome of the action that was asked for last and hands
    /// back the next one.
    ///
    /// A cycle goes from the pause to the compile, from the compile to the
    /// reading of the dependencies whether or not the compile succeeded, and
    /// from there to the rearm on exactly the paths that were read.  When the
    /// watcher is armed the cycle is over and the oldest waiting trigger, if
    /// there is one, begins the next.  An outcome that the stage does not
    /// wait for changes nothing and gives [`Action::Standby`].
    pub fn advance(&mut self, outcome: Outcome) -> (action: Action)
        ensures
            (final(self)@, action@) == old(self)@.step(outcome@),
            old(self)@.well_formed() ==> final(self)@.well_formed(),
    {
        proof {
            if self@.well_formed() {
                lemma_paths_stay_distinct(self@, outcome@);
            }
        }
        let mut stage = Stage::Idle;
        core::mem::swap(&mut self.stage, &mut stage);
        match (outcome, stage) {
            (Outcome::Paused, Stage::Pausing { trigger, since }) => {
                match trigger {
                    Trigger::Build => {
                        self.stage = Stage::Compiling { incremental: false, since };
                        Action::Build
                    },
                    Trigger::Rebuild(event) => {
                        self.stage = Stage::Compiling { incremental: true, since };
                        Action::Rebuild { changed: event.changed, deleted: event.deleted }
                    },
                }
            },
            (Outcome::Compiled { success: _ }, Stage::Compiling { incremental, since }) => {
                self.stage = Stage::Reading { incremental, since };
                Action::ReadDependencies
            },
            (
                Outcome::Dependencies { files, missing, diagnostics },
                Stage::Reading { incremental, since },
            ) => {
                let files = distinct_paths(files);
                let missing = distinct_paths(missing);
                let file_paths = replace_paths(&self.files, &files);
                let missing_paths = replace_paths(&self.missing, &missing);
                let warnings = if incremental {
                    diagnostics
                } else {
                    Vec::new()
                };
                self.stage = Stage::Arming;
                self.files = files;
                self.missing = missing;
                let directories = WatchPaths { watch: Vec::new(), release: Vec::new() };
                assert(directories@.watch =~= seq![]);
                assert(directories@.release =~= seq![]);
                assert(!incremental ==> warnings.deep_view() =~= seq![]);
                Action::Watch {
                    files: file_paths,
                    directories,
                    missing: missing_paths,
                    start_time: since,
                    warnings,
                }
            },
            (Outcome::Armed, Stage::Arming) => {
                self.stage = Stage::Idle;
                self.start_next()
            },
            (_, stage) => {
                self.stage = stage;
                Action::Standby
            },
        }
    }

    /// Starts the lookup of the asset at `path`, resolved against the output
    /// directory.  The lookup reads the store as it stands when it is
    /// answered: nothing is kept from one request to the next.
    pub fn get_asset(&self, path: &str) -> (query: AssetQuery)
        ensures
            query@ == joined_path(self@.output_path, path@),
    {
        AssetQuery::resolve(self.output_path.as_str(), path)
    }

    /// The stage of the cycle in flight.
    pub fn phase(&self) -> (phase: Phase)
        ensures
            phase == self@.stage.phase(),
    {
        match &self.stage {
            Stage::Idle => Phase::Idle,
            Stage::Pausing { .. } => Phase::Pausing,
            Stage::Compiling { .. } => Phase::Compiling,
            Stage::Reading { .. } => Phase::Reading,
            Stage::Arming => Phase::Arming,
        }
    }

    /// The number of triggers that wait for their cycle.
    pub fn waiting(&self) -> (count: usize)
        ensures
            count == self@.queue.len(),
    {
        self.queue.len()
    }

    /// The options the watcher is to be made with.
    pub fn options(&self) -> (options: WatcherOptions)
        ensures
            options == self@.options,
    {
        self.options
    }

    /// The policy the watcher is to be made with.
    pub fn ignored(&self) -> (ignored: &Ignored)
        ensures
            ignored@ == self@.ignored,
    {
        &self.ignored
    }

    /// The directory of the output store that assets are resolved against.
    pub fn output_path(&self) -> (path: &String)
        ensures
            path@ == self@.output_path,
    {
        &self.output_path
    }
}

} // verus!
