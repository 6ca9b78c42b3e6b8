//! Resolution of Linux `.desktop` indirection files: the `Exec` line of
//! the `[Desktop Entry]` section, with its field-code placeholders
//! stripped, tokenized into a program and its arguments.

use vstd::prelude::*;

use crate::model::{wd_option, working_dir_or_none, CommandView, LaunchPlan, PlanView, ResolvedCommand};
use crate::text::{remove_all, remove_all_str, split_ws, tokenize};

verus! {

/// The `Exec` value with every standard field-code placeholder
/// (`%f %F %u %U %d %D %n %N %i %c %k %v %m`) removed literally, in that
/// order — removed, not substituted, since no runtime arguments are
/// supplied.
pub open spec fn strip_codes(s: Seq<char>) -> Seq<char> {
    remove_all(
        remove_all(
            remove_all(
                remove_all(
                    remove_all(
                        remove_all(
                            remove_all(
                                remove_all(
                                    remove_all(
                                        remove_all(
                                            remove_all(
                                                remove_all(remove_all(s, "%f"@), "%F"@),
                                                "%u"@,
                                            ),
                                            "%U"@,
                                        ),
                                        "%d"@,
                                    ),
                                    "%D"@,
                                ),
                                "%n"@,
                            ),
                            "%N"@,
                        ),
                        "%i"@,
                    ),
                    "%c"@,
                ),
                "%k"@,
            ),
            "%v"@,
        ),
        "%m"@,
    )
}

/// Removes every standard field-code placeholder from an `Exec` value.
pub fn strip_field_codes(s: &str) -> (r: String)
    ensures
        r@ == strip_codes(s@),
{
    proof {
        reveal_strlit("%f");
        reveal_strlit("%F");
        reveal_strlit("%u");
        reveal_strlit("%U");
        reveal_strlit("%d");
        reveal_strlit("%D");
        reveal_strlit("%n");
        reveal_strlit("%N");
        reveal_strlit("%i");
        reveal_strlit("%c");
        reveal_strlit("%k");
        reveal_strlit("%v");
        reveal_strlit("%m");
    }
    let r = remove_all_str(s, "%f");
    let r = remove_all_str(r.as_str(), "%F");
    let r = remove_all_str(r.as_str(), "%u");
    let r = remove_all_str(r.as_str(), "%U");
    let r = remove_all_str(r.as_str(), "%d");
    let r = remove_all_str(r.as_str(), "%D");
    let r = remove_all_str(r.as_str(), "%n");
    let r = remove_all_str(r.as_str(), "%N");
    let r = remove_all_str(r.as_str(), "%i");
    let r = remove_all_str(r.as_str(), "%c");
    let r = remove_all_str(r.as_str(), "%k");
    let r = remove_all_str(r.as_str(), "%v");
    let r = remove_all_str(r.as_str(), "%m");
    r
}

/// The error message reported when a `.desktop` file names no program:
/// the `Exec` attribute is missing, or holds nothing but field codes
/// and whitespace.
pub open spec fn no_exec_message() -> Seq<char> {
    "No Exec in .desktop file"@
}

/// Mathematical image of the outcome of reading the `Exec` attribute.
pub open spec fn attr_view(attr: Result<Option<String>, String>) -> Result<
    Option<Seq<char>>,
    Seq<char>,
> {
    match attr {
        Ok(Some(s)) => Ok(Some(s@)),
        Ok(None) => Ok(None),
        Err(e) => Err(e@),
    }
}

/// What resolution decides for a `.desktop` file, as a function of the
/// outcome of reading its `Exec` attribute: a read or parse error is the
/// failure it reports; a missing or empty `Exec` fails with
/// [`no_exec_message`]; otherwise the first token of the stripped `Exec`
/// value is the program, the remaining tokens its arguments, and the
/// item's stored directory the working-directory fallback.
pub open spec fn desktop_plan(
    attr: Result<Option<Seq<char>>, Seq<char>>,
    fallback_wd: Seq<char>,
) -> PlanView {
    match attr {
        Err(e) => PlanView::Fail(e),
        Ok(opt) => match opt {
            None => PlanView::Fail(no_exec_message()),
            Some(exec) => {
                let toks = split_ws(strip_codes(exec));
                if toks.len() == 0 {
                    PlanView::Fail(no_exec_message())
                } else {
                    PlanView::Spawn(
                        CommandView {
                            program: toks[0],
                            args: toks.subrange(1, toks.len() as int),
                            working_dir: wd_option(fallback_wd),
                        },
                    )
                }
            },
        },
    }
}

/// Turns the outcome of reading a `.desktop` file's `Exec` attribute into
/// the launch plan `desktop_plan` prescribes for it.
pub fn desktop_plan_of(attr: Result<Option<String>, String>, fallback_working_dir: &String) -> (r:
    LaunchPlan)
    ensures
        r@ == desktop_plan(attr_view(attr), fallback_working_dir@),
{
    match attr {
        Err(e) => LaunchPlan::Fail(e),
        Ok(None) => LaunchPlan::Fail("No Exec in .desktop file".to_owned()),
        Ok(Some(exec)) => {
            let cleaned = strip_field_codes(exec.as_str());
            let mut toks = tokenize(cleaned.as_str());
            let ghost toks0 = toks.deep_view();
            if toks.len() == 0 {
                proof {
                    assert(toks0.len() == 0);
                }
                LaunchPlan::Fail("No Exec in .desktop file".to_owned())
            } else {
                let program = toks.remove(0);
                let wd = working_dir_or_none(fallback_working_dir);
                let r = LaunchPlan::Spawn(
                    ResolvedCommand { program, args: toks, working_dir: wd },
                );
                proof {
                    assert(toks.deep_view() =~= toks0.subrange(1, toks0.len() as int));
                    assert(r@ =~~= desktop_plan(attr_view(attr), fallback_working_dir@));
                }
                r
            }
        },
    }
}

/// Relies on `freedesktop_entry_parser::parse_entry` and `Entry::get`:
/// reads the entry file at `path` and hands back the first value of
/// `attr` in `section`; `None` when the section or the attribute is
/// absent, and the read or parse error otherwise.
#[verifier::external_body]
pub(crate) fn read_desktop_attr(path: &str, section: &str, attr: &str) -> (r: Result<
    Option<String>,
    String,
>) {
    match freedesktop_entry_parser::parse_entry(path) {
        Ok(entry) => Ok(entry.get(section, attr).and_then(|vals| vals.first().cloned())),
        Err(e) => Err(format!("{}", e)),
    }
}

/// Resolves a `.desktop` indirection file on disk. What comes back from
/// the file read is outside this library's control; whatever it is, the
/// returned plan is the one `desktop_plan` prescribes for it.
pub fn resolve_desktop_path(path: &str, fallback_working_dir: &String) -> (r: LaunchPlan)
    ensures
        exists|a: Result<Option<Seq<char>>, Seq<char>>|
            r@ == desktop_plan(a, fallback_working_dir@),
{
    let attr = read_desktop_attr(path, "Desktop Entry", "Exec");
    let ghost a0 = attr_view(attr);
    let r = desktop_plan_of(attr, fallback_working_dir);
    proof {
        assert(r@ == desktop_plan(a0, fallback_working_dir@));
    }
    r
}

} // verus!
