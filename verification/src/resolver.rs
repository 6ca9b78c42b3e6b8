//! The per-platform launch resolver: given a stored program item, decide
//! whether its path is a URL, an indirection file, or a plain target, and
//! produce the launch plan — the command line to spawn detached, the URL
//! to hand to the OS opener, or the resolution failure to report.

use vstd::prelude::*;

use crate::desktop::{desktop_plan, resolve_desktop_path};
use crate::model::{
    wd_option, working_dir_or_none, CommandView, LaunchPlan, PlanView, Platform, ProgramItem,
    ResolvedCommand,
};
use crate::text::{str_ends_with, str_starts_with};

verus! {

/// The lowercase image of a string, as `str::to_lowercase` computes it.
pub uninterp spec fn lower_of(s: Seq<char>) -> Seq<char>;

/// Relies on `str::to_lowercase`: the result depends on the characters
/// of `s` alone.
#[verifier::external_body]
fn lowercase(s: &str) -> (r: String)
    ensures
        r@ == lower_of(s@),
{
    s.to_lowercase()
}

/// A path handed to the OS URL opener rather than spawned locally.
pub open spec fn is_url(path: Seq<char>) -> bool {
    "http://"@.is_prefix_of(path) || "https://"@.is_prefix_of(path)
}

/// A Windows shortcut file, recognized case-insensitively.
pub open spec fn is_lnk(path: Seq<char>) -> bool {
    ".lnk"@.is_suffix_of(lower_of(path))
}

/// A macOS application bundle.
pub open spec fn is_app(path: Seq<char>) -> bool {
    ".app"@.is_suffix_of(path)
}

/// A Linux desktop-entry file.
pub open spec fn is_desktop(path: Seq<char>) -> bool {
    ".desktop"@.is_suffix_of(path)
}

/// Is `path` handed to the OS URL opener?
pub fn is_url_path(path: &str) -> (r: bool)
    ensures
        r == is_url(path@),
{
    str_starts_with(path, "http://") || str_starts_with(path, "https://")
}

/// The plan for a plain path on macOS or Linux: spawn it directly as an
/// executable, in the item's stored working directory when non-empty.
pub open spec fn direct_plan(path: Seq<char>, fallback_wd: Seq<char>) -> PlanView {
    PlanView::Spawn(
        CommandView { program: path, args: Seq::empty(), working_dir: wd_option(fallback_wd) },
    )
}

/// The plan for a plain path on Windows: wrap it in the shell's own
/// indirection (`cmd /C start "" <path>`), so documents of associated
/// file types launch correctly too; the spawner detaches the child and
/// gives it no console window.
pub open spec fn shell_open_plan(path: Seq<char>, fallback_wd: Seq<char>) -> PlanView {
    PlanView::Spawn(
        CommandView {
            program: "cmd"@,
            args: seq!["/C"@, "start"@, ""@, path],
            working_dir: wd_option(fallback_wd),
        },
    )
}

/// The plan for a macOS application bundle: `open -a <path>`, with no
/// working-directory override.
pub open spec fn bundle_plan(path: Seq<char>) -> PlanView {
    PlanView::Spawn(
        CommandView { program: "open"@, args: seq!["-a"@, path], working_dir: None },
    )
}

/// The message reported on an operating system this launcher does not
/// support — fatal to that single attempt only.
pub open spec fn unsupported_message() -> Seq<char> {
    "Unsupported platform"@
}

/// What `launch_platform_specific` promises for a non-URL path. The
/// plans for plain paths, bundles, and `.lnk` indirection are pinned
/// exactly — a `.lnk` path always becomes the shortcut-resolution step
/// carrying that path and the item's stored directory; for `.desktop`
/// indirection the plan is the one `desktop_plan` prescribes for
/// whatever the file on disk yielded.
pub open spec fn platform_plan_ok(
    platform: Platform,
    path: Seq<char>,
    wd: Seq<char>,
    r: PlanView,
) -> bool {
    match platform {
        Platform::Windows => if is_lnk(path) {
            r == PlanView::ResolveLnk { path, fallback_working_dir: wd }
        } else {
            r == shell_open_plan(path, wd)
        },
        Platform::MacOs => if is_app(path) {
            r == bundle_plan(path)
        } else {
            r == direct_plan(path, wd)
        },
        Platform::Linux => if is_desktop(path) {
            exists|a: Result<Option<Seq<char>>, Seq<char>>| r == desktop_plan(a, wd)
        } else {
            r == direct_plan(path, wd)
        },
        Platform::Unknown => r == PlanView::Fail(unsupported_message()),
    }
}

/// Builds the plan for a plain path on macOS or Linux.
fn plan_direct(item: &ProgramItem) -> (r: LaunchPlan)
    ensures
        r@ == direct_plan(item.path@, item.working_dir@),
{
    let wd = working_dir_or_none(&item.working_dir);
    let r = LaunchPlan::Spawn(
        ResolvedCommand { program: item.path.clone(), args: Vec::new(), working_dir: wd },
    );
    proof {
        assert(r@ =~~= direct_plan(item.path@, item.working_dir@));
    }
    r
}

/// Builds the plan for a plain path on Windows.
fn plan_shell_open(item: &ProgramItem) -> (r: LaunchPlan)
    ensures
        r@ == shell_open_plan(item.path@, item.working_dir@),
{
    let mut args: Vec<String> = Vec::new();
    args.push("/C".to_owned());
    args.push("start".to_owned());
    args.push("".to_owned());
    args.push(item.path.clone());
    let wd = working_dir_or_none(&item.working_dir);
    let r = LaunchPlan::Spawn(
        ResolvedCommand { program: "cmd".to_owned(), args, working_dir: wd },
    );
    proof {
        assert(r@ =~~= shell_open_plan(item.path@, item.working_dir@));
    }
    r
}

/// Builds the plan for a macOS application bundle.
fn plan_bundle(item: &ProgramItem) -> (r: LaunchPlan)
    ensures
        r@ == bundle_plan(item.path@),
{
    let mut args: Vec<String> = Vec::new();
    args.push("-a".to_owned());
    args.push(item.path.clone());
    let r = LaunchPlan::Spawn(
        ResolvedCommand { program: "open".to_owned(), args, working_dir: None },
    );
    proof {
        assert(r@ =~~= bundle_plan(item.path@));
    }
    r
}

/// Resolves a non-URL item per operating system: a `.lnk` path becomes
/// the shortcut-resolution step (the shell reads the file and hands the
/// outcome to `lnk_plan_of`), a `.desktop` path goes through its entry
/// file, an `.app` bundle through the OS opener, anything else is
/// spawned — via the shell's indirection on Windows, directly elsewhere —
/// and an unknown OS fails the attempt.
pub fn launch_platform_specific(platform: Platform, item: &ProgramItem) -> (r: LaunchPlan)
    ensures
        platform_plan_ok(platform, item.path@, item.working_dir@, r@),
{
    match platform {
        Platform::Windows => {
            let low = lowercase(item.path.as_str());
            if str_ends_with(low.as_str(), ".lnk") {
                LaunchPlan::ResolveLnk {
                    path: item.path.clone(),
                    fallback_working_dir: item.working_dir.clone(),
                }
            } else {
                plan_shell_open(item)
            }
        },
        Platform::MacOs => {
            if str_ends_with(item.path.as_str(), ".app") {
                plan_bundle(item)
            } else {
                plan_direct(item)
            }
        },
        Platform::Linux => {
            if str_ends_with(item.path.as_str(), ".desktop") {
                resolve_desktop_path(item.path.as_str(), &item.working_dir)
            } else {
                plan_direct(item)
            }
        },
        Platform::Unknown => LaunchPlan::Fail("Unsupported platform".to_owned()),
    }
}

/// Resolves one launch attempt. A URL is always delegated to the OS URL
/// opener and never spawned as a local process; every other path is
/// resolved per platform by `launch_platform_specific`.
pub fn resolve_launch(platform: Platform, item: &ProgramItem) -> (r: LaunchPlan)
    ensures
        is_url(item.path@) ==> r@ == PlanView::Url(item.path@),
        !is_url(item.path@) ==> platform_plan_ok(platform, item.path@, item.working_dir@, r@),
{
    if is_url_path(item.path.as_str()) {
        LaunchPlan::OpenUrl(item.path.clone())
    } else {
        launch_platform_specific(platform, item)
    }
}

/// The file-extension filter offered when picking an executable for a
/// platform.
pub open spec fn executable_extensions(platform: Platform) -> Seq<Seq<char>> {
    match platform {
        Platform::Windows => seq!["exe"@, "bat"@, "cmd"@, "msi"@, "lnk"@],
        Platform::MacOs => seq!["app"@, "sh"@],
        Platform::Linux => seq!["desktop"@, "sh"@, "AppImage"@],
        Platform::Unknown => seq!["*"@],
    }
}

/// The file extensions treated as launchable programs on a platform.
pub fn get_executable_extensions(platform: Platform) -> (r: Vec<String>)
    ensures
        r.deep_view() == executable_extensions(platform),
{
    let mut r: Vec<String> = Vec::new();
    match platform {
        Platform::Windows => {
            r.push("exe".to_owned());
            r.push("bat".to_owned());
            r.push("cmd".to_owned());
            r.push("msi".to_owned());
            r.push("lnk".to_owned());
        },
        Platform::MacOs => {
            r.push("app".to_owned());
            r.push("sh".to_owned());
        },
        Platform::Linux => {
            r.push("desktop".to_owned());
            r.push("sh".to_owned());
            r.push("AppImage".to_owned());
        },
        Platform::Unknown => {
            r.push("*".to_owned());
        },
    }
    proof {
        assert(r.deep_view() =~= executable_extensions(platform));
    }
    r
}

/// The name a platform is reported under to the command surface.
pub open spec fn platform_name(platform: Platform) -> Seq<char> {
    match platform {
        Platform::Windows => "win32"@,
        Platform::MacOs => "darwin"@,
        Platform::Linux => "linux"@,
        Platform::Unknown => "unknown"@,
    }
}

/// The platform's reported name.
pub fn get_platform(platform: Platform) -> (r: String)
    ensures
        r@ == platform_name(platform),
{
    match platform {
        Platform::Windows => "win32".to_owned(),
        Platform::MacOs => "darwin".to_owned(),
        Platform::Linux => "linux".to_owned(),
        Platform::Unknown => "unknown".to_owned(),
    }
}

} // verus!
