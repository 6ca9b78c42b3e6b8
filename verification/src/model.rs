//! Data model of the launcher: stored program shortcuts, launch outcomes,
//! and the resolved command line that a launch attempt spawns.

use vstd::prelude::*;

verus! {

/// The operating system a launch is resolved for, fixed when the host
/// application is built.
#[derive(Clone, Copy, Debug, PartialEq, Eq, Structural)]
pub enum Platform {
    Windows,
    MacOs,
    Linux,
    Unknown,
}

/// A user-defined program shortcut: what the launcher stores and launches.
/// `path` may be an absolute executable path, a `.lnk`/`.desktop`/`.app`
/// indirection path, or a URL. An empty `working_dir` means "unspecified".
#[derive(Clone, Debug)]
pub struct ProgramItem {
    pub id: String,
    pub name: String,
    pub path: String,
    pub icon: String,
    pub working_dir: String,
    pub shortcut_key: String,
    pub launch_group: Option<u32>,
}

/// Outcome of one launch attempt: a success flag and, on failure, a
/// human-readable error message.
#[derive(Debug)]
pub struct LaunchResult {
    pub success: bool,
    pub error: Option<String>,
}

/// Outcome of one item of a batch, tagged with the originating item's
/// identifier so the caller can correlate outcomes with requests.
#[derive(Debug)]
pub struct BatchLaunchResult {
    pub id: String,
    pub success: bool,
    pub error: Option<String>,
}

/// The concrete command line a launch attempt spawns: program, arguments
/// in order, and an optional working-directory override.
#[derive(Debug)]
pub struct ResolvedCommand {
    pub program: String,
    pub args: Vec<String>,
    pub working_dir: Option<String>,
}

/// What resolution decided to do for one item: open a URL through the OS,
/// spawn a resolved command detached, resolve a `.lnk` shortcut file
/// first, or report a resolution failure. The shell performs the `.lnk`
/// read — whose parser may abort on crafted contents — and hands its
/// outcome back to the library's shortcut resolution, which fixes the
/// final plan for every possible outcome.
#[derive(Debug)]
pub enum LaunchPlan {
    OpenUrl(String),
    Spawn(ResolvedCommand),
    ResolveLnk { path: String, fallback_working_dir: String },
    Fail(String),
}

/// Mathematical image of an `Option<String>`.
pub open spec fn opt_view(o: Option<String>) -> Option<Seq<char>> {
    match o {
        Some(s) => Some(s@),
        None => None,
    }
}

/// Mathematical image of a `ResolvedCommand`.
#[verifier::ext_equal]
pub struct CommandView {
    pub program: Seq<char>,
    pub args: Seq<Seq<char>>,
    pub working_dir: Option<Seq<char>>,
}

impl View for ResolvedCommand {
    type V = CommandView;

    open spec fn view(&self) -> CommandView {
        CommandView {
            program: self.program@,
            args: self.args.deep_view(),
            working_dir: opt_view(self.working_dir),
        }
    }
}

/// Mathematical image of a `LaunchPlan`.
#[verifier::ext_equal]
pub enum PlanView {
    Url(Seq<char>),
    Spawn(CommandView),
    ResolveLnk { path: Seq<char>, fallback_working_dir: Seq<char> },
    Fail(Seq<char>),
}

impl View for LaunchPlan {
    type V = PlanView;

    open spec fn view(&self) -> PlanView {
        match self {
            LaunchPlan::OpenUrl(u) => PlanView::Url(u@),
            LaunchPlan::Spawn(c) => PlanView::Spawn(c@),
            LaunchPlan::ResolveLnk { path, fallback_working_dir } => PlanView::ResolveLnk {
                path: path@,
                fallback_working_dir: fallback_working_dir@,
            },
            LaunchPlan::Fail(m) => PlanView::Fail(m@),
        }
    }
}

/// Mathematical image of a `LaunchResult`.
#[verifier::ext_equal]
pub struct ResultView {
    pub success: bool,
    pub error: Option<Seq<char>>,
}

impl View for LaunchResult {
    type V = ResultView;

    open spec fn view(&self) -> ResultView {
        ResultView { success: self.success, error: opt_view(self.error) }
    }
}

/// Mathematical image of a `BatchLaunchResult`.
#[verifier::ext_equal]
pub struct BatchResultView {
    pub id: Seq<char>,
    pub success: bool,
    pub error: Option<Seq<char>>,
}

impl View for BatchLaunchResult {
    type V = BatchResultView;

    open spec fn view(&self) -> BatchResultView {
        BatchResultView { id: self.id@, success: self.success, error: opt_view(self.error) }
    }
}

impl LaunchResult {
    /// The outcome of an attempt that launched its process (or opened its
    /// URL) without an OS-level error.
    pub fn succeeded() -> (r: LaunchResult)
        ensures
            r@ == (ResultView { success: true, error: None::<Seq<char>> }),
    {
        LaunchResult { success: true, error: None }
    }

    /// The outcome of an attempt that failed, carrying its error message.
    pub fn failed(message: String) -> (r: LaunchResult)
        ensures
            r@ == (ResultView { success: false, error: Some(message@) }),
    {
        LaunchResult { success: false, error: Some(message) }
    }

    /// Folds the outcome of an OS-level spawn or URL-open call into a
    /// launch result: success exactly when the call succeeded, and the
    /// OS error message kept otherwise. A launch attempt thus always
    /// yields a result value, never a hard failure.
    pub fn from_outcome(outcome: Result<(), String>) -> (r: LaunchResult)
        ensures
            r.success == outcome is Ok,
            r@.error == match outcome {
                Ok(_) => None::<Seq<char>>,
                Err(e) => Some(e@),
            },
    {
        match outcome {
            Ok(_) => LaunchResult::succeeded(),
            Err(e) => LaunchResult::failed(e),
        }
    }
}

/// The working directory a spawned command falls back to when the
/// indirection file supplies none of its own: the item's stored directory
/// when non-empty, otherwise the OS default.
pub open spec fn wd_option(wd: Seq<char>) -> Option<Seq<char>> {
    if wd.len() > 0 {
        Some(wd)
    } else {
        None
    }
}

/// Builds `wd_option(wd@)` as a value.
pub fn working_dir_or_none(wd: &String) -> (r: Option<String>)
    ensures
        opt_view(r) == wd_option(wd@),
{
    if wd.as_str().is_empty() {
        None
    } else {
        Some(wd.clone())
    }
}

/// Persisted geometry and state of a group window.
#[derive(Clone, Copy, Debug, PartialEq, Eq, Structural)]
pub struct WindowState {
    pub x: i32,
    pub y: i32,
    pub width: i32,
    pub height: i32,
    pub minimized: bool,
    pub maximized: bool,
}

/// A named group of program shortcuts with its window state.
#[derive(Clone, Debug)]
pub struct ProgramGroup {
    pub id: String,
    pub name: String,
    pub icon: String,
    pub window_state: WindowState,
    pub items: Vec<ProgramItem>,
}

/// Outcome of importing a settings snapshot.
#[derive(Debug)]
pub struct ImportResult {
    pub success: bool,
    pub error: Option<String>,
}

} // verus!
