//! Jobs: a plan of steps (check files, create directories, run `ffmpeg`,
//! move and remove files) carried out one action at a time by whoever can
//! touch the file system and start processes. The job decides; its driver
//! performs each action and reports back the event that resulted.
use vstd::prelude::*;
use vstd::string::*;
use crate::text::{
    ends_with, lemma_ends_with_appended, lemma_starts_with_prefix, lossy_text, owned, push_arg,
    starts_with, texts, utf8_lossy,
};

verus! {

broadcast use vstd::string::group_string_axioms;

/// What becomes of a file once `ffmpeg` has exited.
#[derive(Debug)]
pub enum Cleanup {
    /// Nothing is removed.
    Keep,
    /// The file is removed whether or not `ffmpeg` succeeded.
    Always(String),
    /// The file is removed when `ffmpeg` failed.
    OnFailure(String),
}

/// One step of a plan.
#[derive(Debug)]
pub enum Step {
    /// Stop with an error.
    Fail { error: String },
    /// Stop with `error` unless `path` exists.
    RequireFile { path: String, error: String },
    /// Remove `path` if it exists (a failed removal is ignored).
    RemoveIfPresent { path: String },
    /// Create the directory `dir` if it does not exist.
    EnsureDir { dir: String },
    /// Run `ffmpeg` with `args`. If it cannot be started, stop with
    /// `spawn_error` followed by the reason; if it exits unsuccessfully, stop
    /// with `failure_error` followed by its standard error output, after
    /// the cleanup.
    Run { args: Vec<String>, spawn_error: String, failure_error: String, cleanup: Cleanup },
    /// Stop unless the size of `path` can be read and is not zero.
    RequireNonEmpty { path: String, size_error: String, empty_error: String },
    /// Rename `from` to `to`; stop with `error` followed by the reason if
    /// that fails.
    Move { from: String, to: String, error: String },
}

/// What the driver is asked to do next.
#[derive(Debug)]
pub enum Action {
    CheckExists(String),
    RemoveFile(String),
    CreateDir(String),
    RunFfmpeg { program: String, args: Vec<String> },
    FileSize(String),
    Rename { from: String, to: String },
    /// The job is over, with this result.
    Finish(Result<(), String>),
}

/// How an `ffmpeg` run ended.
#[derive(Debug)]
pub struct RunOutput {
    pub success: bool,
    pub stderr: Vec<u8>,
}

/// What the driver reports after performing an action. Failures carry the
/// text of the error that the operation gave.
#[derive(Debug)]
pub enum Event {
    Exists(bool),
    Removed,
    DirCreated(Result<(), String>),
    Ran(Result<RunOutput, String>),
    Size(Result<u64, String>),
    Moved(Result<(), String>),
}

pub enum CleanupView {
    Keep,
    Always(Seq<char>),
    OnFailure(Seq<char>),
}

pub enum StepView {
    Fail { error: Seq<char> },
    RequireFile { path: Seq<char>, error: Seq<char> },
    RemoveIfPresent { path: Seq<char> },
    EnsureDir { dir: Seq<char> },
    Run {
        args: Seq<Seq<char>>,
        spawn_error: Seq<char>,
        failure_error: Seq<char>,
        cleanup: CleanupView,
    },
    RequireNonEmpty { path: Seq<char>, size_error: Seq<char>, empty_error: Seq<char> },
    Move { from: Seq<char>, to: Seq<char>, error: Seq<char> },
}

pub enum ActionView {
    CheckExists(Seq<char>),
    RemoveFile(Seq<char>),
    CreateDir(Seq<char>),
    RunFfmpeg { program: Seq<char>, args: Seq<Seq<char>> },
    FileSize(Seq<char>),
    Rename { from: Seq<char>, to: Seq<char> },
    Finish(Result<(), Seq<char>>),
}

pub enum EventView {
    Exists(bool),
    Removed,
    DirCreated(Result<(), Seq<char>>),
    Ran(Result<(bool, Seq<u8>), Seq<char>>),
    Size(Result<u64, Seq<char>>),
    Moved(Result<(), Seq<char>>),
}

/// A job in progress: the program to run, the plan, the step reached and
/// the phase within it, how the last `ffmpeg` run ended, and the result once
/// it is known.
pub struct JobView {
    pub program: Seq<char>,
    pub steps: Seq<StepView>,
    pub pos: nat,
    pub phase: nat,
    pub status: Option<(bool, Seq<char>)>,
    pub outcome: Option<Result<(), Seq<char>>>,
}

pub open spec fn unit_result_view(r: Result<(), String>) -> Result<(), Seq<char>> {
    match r {
        Ok(()) => Ok(()),
        Err(e) => Err(e@),
    }
}

impl View for Cleanup {
    type V = CleanupView;

    open spec fn view(&self) -> CleanupView {
        match self {
            Cleanup::Keep => CleanupView::Keep,
            Cleanup::Always(p) => CleanupView::Always(p@),
            Cleanup::OnFailure(p) => CleanupView::OnFailure(p@),
        }
    }
}

impl View for Step {
    type V = StepView;

    open spec fn view(&self) -> StepView {
        match self {
            Step::Fail { error } => StepView::Fail { error: error@ },
            Step::RequireFile { path, error } => StepView::RequireFile { path: path@, error: error@ },
            Step::RemoveIfPresent { path } => StepView::RemoveIfPresent { path: path@ },
            Step::EnsureDir { dir } => StepView::EnsureDir { dir: dir@ },
            Step::Run { args, spawn_error, failure_error, cleanup } => StepView::Run {
                args: texts(args@),
                spawn_error: spawn_error@,
                failure_error: failure_error@,
                cleanup: cleanup@,
            },
            Step::RequireNonEmpty { path, size_error, empty_error } => StepView::RequireNonEmpty {
                path: path@,
                size_error: size_error@,
                empty_error: empty_error@,
            },
            Step::Move { from, to, error } => StepView::Move { from: from@, to: to@, error: error@ },
        }
    }
}

impl View for Action {
    type V = ActionView;

    open spec fn view(&self) -> ActionView {
        match self {
            Action::CheckExists(p) => ActionView::CheckExists(p@),
            Action::RemoveFile(p) => ActionView::RemoveFile(p@),
            Action::CreateDir(p) => ActionView::CreateDir(p@),
            Action::RunFfmpeg { program, args } => ActionView::RunFfmpeg {
                program: program@,
                args: texts(args@),
            },
            Action::FileSize(p) => ActionView::FileSize(p@),
            Action::Rename { from, to } => ActionView::Rename { from: from@, to: to@ },
            Action::Finish(r) => ActionView::Finish(unit_result_view(*r)),
        }
    }
}

impl View for Event {
    type V = EventView;

    open spec fn view(&self) -> EventView {
        match self {
            Event::Exists(b) => EventView::Exists(*b),
            Event::Removed => EventView::Removed,
            Event::DirCreated(r) => EventView::DirCreated(unit_result_view(*r)),
            Event::Ran(r) => EventView::Ran(
                match r {
                    Ok(out) => Ok((out.success, out.stderr@)),
                    Err(e) => Err(e@),
                },
            ),
            Event::Size(r) => EventView::Size(
                match r {
                    Ok(n) => Ok(*n),
                    Err(e) => Err(e@),
                },
            ),
            Event::Moved(r) => EventView::Moved(unit_result_view(*r)),
        }
    }
}

/// The views of a list of steps.
pub open spec fn steps_view(v: Seq<Step>) -> Seq<StepView> {
    v.map_values(|s: Step| s@)
}

/// Prefix of the error when an output directory cannot be created.
pub open spec fn create_dir_error_prefix() -> Seq<char> {
    "Failed to create output directory: "@
}

/// The file a cleanup removes.
pub open spec fn cleanup_path(c: CleanupView) -> Seq<char> {
    match c {
        CleanupView::Keep => Seq::empty(),
        CleanupView::Always(p) => p,
        CleanupView::OnFailure(p) => p,
    }
}

impl JobView {
    /// A job at the start of its plan.
    pub open spec fn start(program: Seq<char>, steps: Seq<StepView>) -> JobView {
        JobView { program, steps, pos: 0, phase: 0, status: None, outcome: None }
    }

    /// The action the job asks for.
    pub open spec fn current_action(self) -> ActionView {
        if self.outcome is Some {
            ActionView::Finish(self.outcome->0)
        } else if self.pos >= self.steps.len() {
            ActionView::Finish(Ok(()))
        } else {
            match self.steps[self.pos as int] {
                StepView::Fail { error } => ActionView::Finish(Err(error)),
                StepView::RequireFile { path, .. } => ActionView::CheckExists(path),
                StepView::RemoveIfPresent { path } => if self.phase == 0 {
                    ActionView::CheckExists(path)
                } else {
                    ActionView::RemoveFile(path)
                },
                StepView::EnsureDir { dir } => if self.phase == 0 {
                    ActionView::CheckExists(dir)
                } else {
                    ActionView::CreateDir(dir)
                },
                StepView::Run { args, cleanup, .. } => if self.phase == 0 {
                    ActionView::RunFfmpeg { program: self.program, args }
                } else {
                    ActionView::RemoveFile(cleanup_path(cleanup))
                },
                StepView::RequireNonEmpty { path, .. } => ActionView::FileSize(path),
                StepView::Move { from, to, .. } => ActionView::Rename { from, to },
            }
        }
    }

    /// Whether the job is over.
    pub open spec fn is_finished(self) -> bool {
        self.current_action() is Finish
    }

    /// Whether `e` answers the action the job asks for.
    pub open spec fn accepts(self, e: EventView) -> bool {
        match self.current_action() {
            ActionView::CheckExists(_) => e is Exists,
            ActionView::RemoveFile(_) => e is Removed,
            ActionView::CreateDir(_) => e is DirCreated,
            ActionView::RunFfmpeg { .. } => e is Ran,
            ActionView::FileSize(_) => e is Size,
            ActionView::Rename { .. } => e is Moved,
            ActionView::Finish(_) => false,
        }
    }

    /// On to the next step.
    pub open spec fn proceed(self) -> JobView {
        JobView { pos: self.pos + 1, phase: 0, ..self }
    }

    /// Over, with an error.
    pub open spec fn fail(self, error: Seq<char>) -> JobView {
        JobView { outcome: Some(Err(error)), ..self }
    }

    /// Into the second phase of the current step.
    pub open spec fn second_phase(self) -> JobView {
        JobView { phase: 1, ..self }
    }

    /// The job after the driver reports `e`.
    pub open spec fn next(self, e: EventView) -> JobView {
        match self.steps[self.pos as int] {
            StepView::RequireFile { error, .. } => match e {
                EventView::Exists(true) => self.proceed(),
                _ => self.fail(error),
            },
            StepView::RemoveIfPresent { .. } => if self.phase == 0 {
                match e {
                    EventView::Exists(true) => self.second_phase(),
                    _ => self.proceed(),
                }
            } else {
                self.proceed()
            },
            StepView::EnsureDir { .. } => if self.phase == 0 {
                match e {
                    EventView::Exists(true) => self.proceed(),
                    _ => self.second_phase(),
                }
            } else {
                match e {
                    EventView::DirCreated(Err(t)) => self.fail(create_dir_error_prefix() + t),
                    _ => self.proceed(),
                }
            },
            StepView::Run { spawn_error, failure_error, cleanup, .. } => if self.phase == 0 {
                match e {
                    EventView::Ran(Err(t)) => self.fail(spawn_error + t),
                    EventView::Ran(Ok((success, bytes))) => {
                        let ran = JobView {
                            status: Some((success, lossy_text(bytes))),
                            ..self
                        };
                        if cleanup is Always || (cleanup is OnFailure && !success) {
                            ran.second_phase()
                        } else if success {
                            ran.proceed()
                        } else {
                            ran.fail(failure_error + lossy_text(bytes))
                        }
                    },
                    _ => self,
                }
            } else {
                match self.status {
                    Some((false, t)) => self.fail(failure_error + t),
                    _ => self.proceed(),
                }
            },
            StepView::RequireNonEmpty { size_error, empty_error, .. } => match e {
                EventView::Size(Ok(n)) => if n == 0 {
                    self.fail(empty_error)
                } else {
                    self.proceed()
                },
                EventView::Size(Err(t)) => self.fail(size_error + t),
                _ => self,
            },
            StepView::Move { error, .. } => match e {
                EventView::Moved(Err(t)) => self.fail(error + t),
                _ => self.proceed(),
            },
            StepView::Fail { .. } => self,
        }
    }

    /// Work left before the job is over: two units per remaining step, one
    /// less once its second phase is reached.
    pub open spec fn work_left(self) -> int {
        if self.pos >= self.steps.len() {
            0
        } else {
            2 * (self.steps.len() - self.pos) - if self.phase == 0 {
                0int
            } else {
                1int
            }
        }
    }
}

/// Every answered action brings a job closer to its end: either it is over,
/// or there is strictly less work left. A job therefore finishes after at
/// most twice as many events as its plan has steps.
pub proof fn lemma_job_progresses(j: JobView, e: EventView)
    requires
        j.accepts(e),
    ensures
        !j.is_finished(),
        j.next(e).is_finished() || j.next(e).work_left() < j.work_left(),
        0 <= j.next(e).work_left(),
{
}

/// A job asks for nothing once it is over: no event is accepted.
pub proof fn lemma_finished_job_accepts_nothing(j: JobView, e: EventView)
    requires
        j.is_finished(),
    ensures
        !j.accepts(e),
{
}

/// The answer a driver gives when everything goes well: files exist,
/// removals and directory creation succeed, `ffmpeg` starts and exits
/// successfully with nothing on its standard error, sizes are non-zero and
/// moves succeed.
pub open spec fn happy_event(a: ActionView) -> EventView {
    match a {
        ActionView::CheckExists(_) => EventView::Exists(true),
        ActionView::RemoveFile(_) => EventView::Removed,
        ActionView::CreateDir(_) => EventView::DirCreated(Ok(())),
        ActionView::RunFfmpeg { .. } => EventView::Ran(Ok((true, Seq::empty()))),
        ActionView::FileSize(_) => EventView::Size(Ok(1)),
        ActionView::Rename { .. } => EventView::Moved(Ok(())),
        ActionView::Finish(_) => EventView::Removed,
    }
}

/// The job after answering at most `n` of its actions as `happy_event` does.
pub open spec fn happy_run(j: JobView, n: nat) -> JobView
    decreases n,
{
    if n == 0 || j.is_finished() {
        j
    } else {
        happy_run(j.next(happy_event(j.current_action())), (n - 1) as nat)
    }
}

/// A plan with no step that stops unconditionally.
pub open spec fn no_fail_steps(steps: Seq<StepView>) -> bool {
    forall|i: int| 0 <= i < steps.len() ==> !(#[trigger] steps[i] is Fail)
}

/// A job that can still succeed when everything goes well: no result yet,
/// no unconditional failure ahead, and an `ffmpeg` run awaiting its cleanup
/// has succeeded.
pub open spec fn on_happy_path(j: JobView) -> bool {
    &&& j.outcome is None
    &&& no_fail_steps(j.steps)
    &&& (j.pos < j.steps.len() && j.steps[j.pos as int] is Run && j.phase != 0) ==> (
    j.status matches Some((true, _)))
}

proof fn lemma_happy_step(j: JobView)
    requires
        on_happy_path(j),
        !j.is_finished(),
    ensures
        j.accepts(happy_event(j.current_action())),
        on_happy_path(j.next(happy_event(j.current_action()))),
        j.next(happy_event(j.current_action())).work_left() < j.work_left(),
{
    assert(!(j.steps[j.pos as int] is Fail));
}

proof fn lemma_happy_run_ends_ok(j: JobView, n: nat)
    requires
        on_happy_path(j),
        j.work_left() <= n,
    ensures
        happy_run(j, n).current_action() == ActionView::Finish(Ok(())),
    decreases n,
{
    if j.is_finished() {
        if j.pos < j.steps.len() {
            assert(!(j.steps[j.pos as int] is Fail));
        }
    } else {
        assert(!(j.steps[j.pos as int] is Fail));
        lemma_happy_step(j);
        lemma_happy_run_ends_ok(j.next(happy_event(j.current_action())), (n - 1) as nat);
    }
}

/// A plan without unconditional failures, carried out when every file it
/// checks exists and every operation and `ffmpeg` run succeeds, ends with
/// success after at most twice as many actions as it has steps.
pub proof fn lemma_happy_path_succeeds(program: Seq<char>, steps: Seq<StepView>)
    requires
        no_fail_steps(steps),
    ensures
        happy_run(JobView::start(program, steps), 2 * steps.len()).current_action()
            == ActionView::Finish(Ok(())),
{
    lemma_happy_run_ends_ok(JobView::start(program, steps), 2 * steps.len());
}

/// A required file that is missing stops the job with that step's error.
pub proof fn lemma_missing_file_stops(j: JobView, path: Seq<char>, error: Seq<char>)
    requires
        j.outcome is None,
        j.pos < j.steps.len(),
        j.steps[j.pos as int] == (StepView::RequireFile { path, error }),
    ensures
        j.current_action() == ActionView::CheckExists(path),
        j.next(EventView::Exists(false)).current_action() == ActionView::Finish(Err(error)),
        j.next(EventView::Exists(true)) == j.proceed(),
{
}

/// When `ffmpeg` cannot be started or exits unsuccessfully the job ends
/// with an error, whatever cleanup is still to be done first.
pub proof fn lemma_failed_run_fails(j: JobView, e: EventView)
    requires
        j.outcome is None,
        j.pos < j.steps.len(),
        j.phase == 0,
        j.steps[j.pos as int] is Run,
        e matches EventView::Ran(r) && (r is Err || r matches Ok((false, _))),
    ensures
        j.next(e).outcome is Some && j.next(e).outcome->0 is Err || (j.next(e).phase != 0
            && j.next(e).next(EventView::Removed).outcome matches Some(Err(_))),
{
}

/// What an `ffmpeg` run step does with each outcome: a run that cannot
/// start ends the job with the step's start error followed by the reason;
/// a failed run ends it with the step's failure error followed by what
/// `ffmpeg` wrote on its standard error, after removing the cleanup file
/// when there is one; a successful run moves on to the next step, after
/// removing the file that is always cleaned up.
pub proof fn lemma_run_outcomes(
    j: JobView,
    args: Seq<Seq<char>>,
    spawn_error: Seq<char>,
    failure_error: Seq<char>,
    cleanup: CleanupView,
    reason: Seq<char>,
    stderr: Seq<u8>,
)
    requires
        j.outcome is None,
        j.pos < j.steps.len(),
        j.phase == 0,
        j.steps[j.pos as int] == (StepView::Run { args, spawn_error, failure_error, cleanup }),
    ensures
        j.current_action() == (ActionView::RunFfmpeg { program: j.program, args }),
        j.next(EventView::Ran(Err(reason))).current_action() matches ActionView::Finish(Err(m))
            && starts_with(m, spawn_error) && ends_with(m, reason),
        ({
            let failed = j.next(EventView::Ran(Ok((false, stderr))));
            let finished = if cleanup is Keep {
                failed
            } else {
                failed.next(EventView::Removed)
            };
            &&& !(cleanup is Keep) ==> failed.current_action() == ActionView::RemoveFile(
                cleanup_path(cleanup),
            )
            &&& finished.current_action() matches ActionView::Finish(Err(m)) && starts_with(
                m,
                failure_error,
            ) && ends_with(m, lossy_text(stderr))
        }),
        ({
            let ran = j.next(EventView::Ran(Ok((true, stderr))));
            let done = if cleanup is Always {
                ran.next(EventView::Removed)
            } else {
                ran
            };
            &&& cleanup is Always ==> ran.current_action() == ActionView::RemoveFile(
                cleanup_path(cleanup),
            )
            &&& done.outcome is None && done.pos == j.pos + 1 && done.phase == 0
        }),
{
    lemma_starts_with_prefix(spawn_error, reason);
    lemma_ends_with_appended(spawn_error, reason);
    lemma_starts_with_prefix(failure_error, lossy_text(stderr));
    lemma_ends_with_appended(failure_error, lossy_text(stderr));
}

/// Directory steps create the directory only when it is missing, and a
/// failure to create it ends the job with an error that names the reason;
/// removal steps remove the file only when it exists.
pub proof fn lemma_file_steps(j: JobView, path: Seq<char>, reason: Seq<char>)
    requires
        j.outcome is None,
        j.pos < j.steps.len(),
        j.phase == 0,
    ensures
        j.steps[j.pos as int] == (StepView::EnsureDir { dir: path }) ==> {
            &&& j.current_action() == ActionView::CheckExists(path)
            &&& j.next(EventView::Exists(true)) == j.proceed()
            &&& j.next(EventView::Exists(false)).current_action() == ActionView::CreateDir(path)
            &&& j.next(EventView::Exists(false)).next(EventView::DirCreated(Ok(()))) == j.proceed()
            &&& j.next(EventView::Exists(false)).next(
                EventView::DirCreated(Err(reason)),
            ).current_action() matches ActionView::Finish(Err(m)) && starts_with(
                m,
                "Failed to create output directory: "@,
            ) && ends_with(m, reason)
        },
        j.steps[j.pos as int] == (StepView::RemoveIfPresent { path }) ==> {
            &&& j.current_action() == ActionView::CheckExists(path)
            &&& j.next(EventView::Exists(false)) == j.proceed()
            &&& j.next(EventView::Exists(true)).current_action() == ActionView::RemoveFile(path)
            &&& j.next(EventView::Exists(true)).next(EventView::Removed).pos == j.pos + 1
        },
{
    lemma_starts_with_prefix("Failed to create output directory: "@, reason);
    lemma_ends_with_appended("Failed to create output directory: "@, reason);
}

/// A size check passes only a non-empty file, and a move that fails ends
/// the job with an error that names the reason.
pub proof fn lemma_size_and_move_steps(j: JobView, n: u64, reason: Seq<char>)
    requires
        j.outcome is None,
        j.pos < j.steps.len(),
    ensures
        j.steps[j.pos as int] matches StepView::RequireNonEmpty { path, size_error, empty_error }
            ==> {
            &&& j.current_action() == ActionView::FileSize(path)
            &&& n > 0 ==> j.next(EventView::Size(Ok(n))) == j.proceed()
            &&& n == 0 ==> j.next(EventView::Size(Ok(n))).current_action() == ActionView::Finish(
                Err(empty_error),
            )
            &&& j.next(EventView::Size(Err(reason))).current_action() matches ActionView::Finish(
                Err(m),
            ) && starts_with(m, size_error) && ends_with(m, reason)
        },
        j.steps[j.pos as int] matches StepView::Move { from, to, error } ==> {
            &&& j.current_action() == (ActionView::Rename { from, to })
            &&& j.next(EventView::Moved(Ok(()))) == j.proceed()
            &&& j.next(EventView::Moved(Err(reason))).current_action() matches ActionView::Finish(
                Err(m),
            ) && starts_with(m, error) && ends_with(m, reason)
        },
{
    match j.steps[j.pos as int] {
        StepView::RequireNonEmpty { size_error, .. } => {
            lemma_starts_with_prefix(size_error, reason);
            lemma_ends_with_appended(size_error, reason);
        },
        StepView::Move { error, .. } => {
            lemma_starts_with_prefix(error, reason);
            lemma_ends_with_appended(error, reason);
        },
        _ => {},
    }
}

/// An exact copy of a list of arguments.
pub fn copy_args(v: &Vec<String>) -> (r: Vec<String>)
    ensures
        texts(r@) == texts(v@),
{
    let mut r: Vec<String> = Vec::new();
    let n = v.len();
    let mut i: usize = 0;
    while i < n
        invariant
            n == v@.len(),
            i <= n,
            texts(r@) == texts(v@.take(i as int)),
        decreases n - i,
    {
        push_arg(&mut r, v[i].clone());
        assert(texts(v@.take(i + 1)) =~= texts(v@.take(i as int)).push(v@[i as int]@));
        i = i + 1;
    }
    assert(v@.take(n as int) =~= v@);
    r
}

/// A job: the program, the plan, and where it stands.
pub struct Job {
    program: String,
    steps: Vec<Step>,
    pos: usize,
    phase: u8,
    status: Option<(bool, String)>,
    outcome: Option<Result<(), String>>,
}

impl View for Job {
    type V = JobView;

    closed spec fn view(&self) -> JobView {
        JobView {
            program: self.program@,
            steps: steps_view(self.steps@),
            pos: self.pos as nat,
            phase: self.phase as nat,
            status: match self.status {
                Some((b, t)) => Some((b, t@)),
                None => None,
            },
            outcome: match self.outcome {
                Some(r) => Some(unit_result_view(r)),
                None => None,
            },
        }
    }
}

impl Job {
    /// A job that will carry out `steps`, running `program` as `ffmpeg`.
    pub fn new(program: String, steps: Vec<Step>) -> (j: Job)
        ensures
            j@ == JobView::start(program@, steps_view(steps@)),
    {
        Job { program, steps, pos: 0, phase: 0, status: None, outcome: None }
    }

    /// The action the job asks for.
    pub fn action(&self) -> (a: Action)
        ensures
            a@ == self@.current_action(),
    {
        match &self.outcome {
            Some(Ok(())) => return Action::Finish(Ok(())),
            Some(Err(e)) => return Action::Finish(Err(e.clone())),
            None => {},
        }
        if self.pos >= self.steps.len() {
            return Action::Finish(Ok(()));
        }
        let ghost v = self@;
        assert(v.steps[self.pos as int] == self.steps@[self.pos as int]@);
        match &self.steps[self.pos] {
            Step::Fail { error } => Action::Finish(Err(error.clone())),
            Step::RequireFile { path, .. } => Action::CheckExists(path.clone()),
            Step::RemoveIfPresent { path } => if self.phase == 0 {
                Action::CheckExists(path.clone())
            } else {
                Action::RemoveFile(path.clone())
            },
            Step::EnsureDir { dir } => if self.phase == 0 {
                Action::CheckExists(dir.clone())
            } else {
                Action::CreateDir(dir.clone())
            },
            Step::Run { args, cleanup, .. } => if self.phase == 0 {
                Action::RunFfmpeg { program: self.program.clone(), args: copy_args(args) }
            } else {
                match cleanup {
                    Cleanup::Keep => Action::RemoveFile(String::new()),
                    Cleanup::Always(p) => Action::RemoveFile(p.clone()),
                    Cleanup::OnFailure(p) => Action::RemoveFile(p.clone()),
                }
            },
            Step::RequireNonEmpty { path, .. } => Action::FileSize(path.clone()),
            Step::Move { from, to, .. } => Action::Rename { from: from.clone(), to: to.clone() },
        }
    }

    /// Whether the job is over.
    pub fn is_finished(&self) -> (b: bool)
        ensures
            b == self@.is_finished(),
    {
        match self.action() {
            Action::Finish(_) => true,
            _ => false,
        }
    }

    /// Whether `e` answers the action the job asks for.
    pub fn accepts(&self, e: &Event) -> (b: bool)
        ensures
            b == self@.accepts(e@),
    {
        match (self.action(), e) {
            (Action::CheckExists(_), Event::Exists(_)) => true,
            (Action::RemoveFile(_), Event::Removed) => true,
            (Action::CreateDir(_), Event::DirCreated(_)) => true,
            (Action::RunFfmpeg { .. }, Event::Ran(_)) => true,
            (Action::FileSize(_), Event::Size(_)) => true,
            (Action::Rename { .. }, Event::Moved(_)) => true,
            _ => false,
        }
    }

    fn proceed(&mut self)
        requires
            old(self).pos < old(self).steps.len(),
        ensures
            final(self)@ == old(self)@.proceed(),
    {
        self.pos = self.pos + 1;
        self.phase = 0;
    }

    fn fail(&mut self, error: String)
        ensures
            final(self)@ == old(self)@.fail(error@),
    {
        self.outcome = Some(Err(error));
    }

    /// Takes in what the driver reports after performing the action.
    pub fn advance(&mut self, e: Event)
        requires
            old(self)@.accepts(e@),
        ensures
            final(self)@ == old(self)@.next(e@),
    {
        let ghost v = self@;
        let pos = self.pos;
        assert(v.steps[pos as int] == self.steps@[pos as int]@);
        match &self.steps[pos] {
            Step::RequireFile { error, .. } => {
                let err = error.clone();
                match e {
                    Event::Exists(true) => self.proceed(),
                    _ => self.fail(err),
                }
            },
            Step::RemoveIfPresent { .. } => {
                if self.phase == 0 {
                    match e {
                        Event::Exists(true) => self.phase = 1,
                        _ => self.proceed(),
                    }
                } else {
                    self.proceed()
                }
            },
            Step::EnsureDir { .. } => {
                if self.phase == 0 {
                    match e {
                        Event::Exists(true) => self.proceed(),
                        _ => self.phase = 1,
                    }
                } else {
                    match e {
                        Event::DirCreated(Err(t)) => {
                            let msg = owned("Failed to create output directory: ").concat(
                                t.as_str(),
                            );
                            self.fail(msg)
                        },
                        _ => self.proceed(),
                    }
                }
            },
            Step::Run { spawn_error, failure_error, cleanup, .. } => {
                let spawn_err = spawn_error.clone();
                let failure_err = failure_error.clone();
                let (always, on_failure) = match cleanup {
                    Cleanup::Keep => (false, false),
                    Cleanup::Always(_) => (true, false),
                    Cleanup::OnFailure(_) => (false, true),
                };
                if self.phase == 0 {
                    match e {
                        Event::Ran(Err(t)) => self.fail(spawn_err.concat(t.as_str())),
                        Event::Ran(Ok(out)) => {
                            let text = utf8_lossy(out.stderr.as_slice());
                            let msg = failure_err.concat(text.as_str());
                            self.status = Some((out.success, text));
                            if always || (on_failure && !out.success) {
                                self.phase = 1;
                            } else if out.success {
                                self.proceed();
                            } else {
                                self.fail(msg);
                            }
                        },
                        _ => {},
                    }
                } else {
                    let failed_text = match &self.status {
                        Some((false, t)) => Some(t.clone()),
                        _ => None,
                    };
                    match failed_text {
                        Some(t) => self.fail(failure_err.concat(t.as_str())),
                        None => self.proceed(),
                    }
                }
            },
            Step::RequireNonEmpty { size_error, empty_error, .. } => {
                let size_err = size_error.clone();
                let empty_err = empty_error.clone();
                match e {
                    Event::Size(Ok(n)) => if n == 0 {
                        self.fail(empty_err)
                    } else {
                        self.proceed()
                    },
                    Event::Size(Err(t)) => self.fail(size_err.concat(t.as_str())),
                    _ => {},
                }
            },
            Step::Move { error, .. } => {
                let err = error.clone();
                match e {
                    Event::Moved(Err(t)) => self.fail(err.concat(t.as_str())),
                    _ => self.proceed(),
                }
            },
            Step::Fail { .. } => {},
        }
    }
}

} // verus!
