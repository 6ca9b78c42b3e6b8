//! Resolution of Windows `.lnk` shortcut files: the link's local base
//! path becomes the program, its embedded argument string is split on
//! whitespace, and its embedded working directory takes precedence over
//! the item's stored one. The shell reads and parses the shortcut file —
//! the binary format can make a parser abort on crafted contents, so the
//! read stays outside the library's no-panic boundary — and hands the
//! outcome to [`lnk_plan_of`], which fixes the plan for every value of
//! it.

use vstd::prelude::*;
use vstd::string::StringExecFns;

use crate::model::{wd_option, working_dir_or_none, CommandView, LaunchPlan, PlanView, ResolvedCommand};
use crate::text::{split_ws, tokenize};

verus! {

/// What a shortcut file yields once parsed: the link's target local base
/// path, its embedded working directory, and its embedded argument
/// string, each of which the format leaves optional.
#[derive(Debug)]
pub struct LnkData {
    pub target: Option<String>,
    pub working_dir: Option<String>,
    pub arguments: Option<String>,
}

/// Mathematical image of `LnkData`.
#[verifier::ext_equal]
pub struct LnkView {
    pub target: Option<Seq<char>>,
    pub working_dir: Option<Seq<char>>,
    pub arguments: Option<Seq<char>>,
}

impl View for LnkData {
    type V = LnkView;

    open spec fn view(&self) -> LnkView {
        LnkView {
            target: crate::model::opt_view(self.target),
            working_dir: crate::model::opt_view(self.working_dir),
            arguments: crate::model::opt_view(self.arguments),
        }
    }
}

/// Mathematical image of the outcome of parsing a shortcut file.
pub open spec fn lnk_result_view(d: Result<LnkData, String>) -> Result<LnkView, Seq<char>> {
    match d {
        Ok(v) => Ok(v@),
        Err(e) => Err(e@),
    }
}

/// The error message reported for a shortcut file that could not be
/// parsed, built around the parser's own account.
pub open spec fn parse_failure_message(e: Seq<char>) -> Seq<char> {
    "Failed to parse .lnk file: "@ + e
}

/// The error message reported when a shortcut parses but names no
/// target local base path.
pub open spec fn no_target_message() -> Seq<char> {
    "No target found in .lnk file"@
}

/// What resolution decides for a `.lnk` file, as a function of the
/// outcome of parsing it: a parse error is reported as a failure; a link
/// without a target fails with [`no_target_message`]; otherwise the
/// target is the program, the embedded argument string is split on
/// whitespace (no quoting support — a known simplification), and the
/// link's own working directory, when present, overrides the item's.
pub open spec fn lnk_plan(d: Result<LnkView, Seq<char>>, fallback_wd: Seq<char>) -> PlanView {
    match d {
        Err(e) => PlanView::Fail(parse_failure_message(e)),
        Ok(v) => match v.target {
            None => PlanView::Fail(no_target_message()),
            Some(t) => PlanView::Spawn(
                CommandView {
                    program: t,
                    args: match v.arguments {
                        Some(a) => split_ws(a),
                        None => Seq::empty(),
                    },
                    working_dir: match v.working_dir {
                        Some(w) => Some(w),
                        None => wd_option(fallback_wd),
                    },
                },
            ),
        },
    }
}

/// Turns the outcome of reading and parsing a shortcut file into the
/// launch plan `lnk_plan` prescribes for it. The shell hands every
/// failure of the read — a parser abort on crafted contents included —
/// as the error string, so resolution always yields a plan value.
pub fn lnk_plan_of(data: Result<LnkData, String>, fallback_working_dir: &String) -> (r: LaunchPlan)
    ensures
        r@ == lnk_plan(lnk_result_view(data), fallback_working_dir@),
{
    match data {
        Err(e) => LaunchPlan::Fail("Failed to parse .lnk file: ".to_owned().concat(e.as_str())),
        Ok(d) => {
            let LnkData { target, working_dir, arguments } = d;
            match target {
                None => LaunchPlan::Fail("No target found in .lnk file".to_owned()),
                Some(t) => {
                    let args: Vec<String> = match &arguments {
                        Some(a) => tokenize(a.as_str()),
                        None => Vec::new(),
                    };
                    let wd: Option<String> = match working_dir {
                        Some(w) => Some(w),
                        None => working_dir_or_none(fallback_working_dir),
                    };
                    let r = LaunchPlan::Spawn(
                        ResolvedCommand { program: t, args, working_dir: wd },
                    );
                    proof {
                        assert(r@ =~~= lnk_plan(lnk_result_view(data), fallback_working_dir@));
                    }
                    r
                },
            }
        },
    }
}

} // verus!
