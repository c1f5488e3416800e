//! What is done for a goldenfile when the test fails before its comparison is
//! through.

use crate::mint::{
    comparison_of, overwrite_of, Comparison, ComparisonView, GoldenfileLocation, GoldenfileView,
    MintView, Overwrite, OverwriteView,
};
use vstd::prelude::*;
use vstd::string::*;
use yansi::Paint;

verus! {

/// What to print and to restore for one goldenfile of a failing test.
#[derive(Clone, Debug, PartialEq, Eq)]
pub struct Recovery {
    /// The hint at how goldenfiles are updated.
    pub note: String,
    /// The line that names the goldenfile.
    pub error: String,
    /// For a goldenfile that was moved to the staging directory: the step that
    /// puts it back. For any other, nothing.
    pub restore: Option<Overwrite>,
}

/// The word that leads the line on a changed goldenfile, in plain text.
pub open spec fn plain_label() -> Seq<char> {
    "error"@
}

/// A word between the codes that turn bold red on and all styling off.
pub open spec fn painted(word: Seq<char>) -> Seq<char> {
    "\x1b[1;31m"@ + word + "\x1b[0m"@
}

/// The word that leads the line on a changed goldenfile, in bold red.
pub open spec fn painted_label() -> Seq<char> {
    painted(plain_label())
}

/// The hint of every recovery.
pub open spec fn update_note() -> Seq<char> {
    "note: run with `UPDATE_GOLDENFILES=1` to update goldenfiles"@
}

/// The line that names a changed goldenfile, behind a label.
pub open spec fn changed_line(label: Seq<char>, file: Seq<char>) -> Seq<char> {
    label + ": goldenfile changed: "@ + file
}

/// The step that puts a moved goldenfile back: the file that holds the
/// committed contents is the source, the place of the replication the
/// destination.
pub open spec fn restore_of(comparison: ComparisonView) -> Option<OverwriteView> {
    match comparison.location {
        GoldenfileLocation::Original => None,
        GoldenfileLocation::Temporary => Some(
            OverwriteView {
                file: comparison.file,
                dest: comparison.new,
                source: comparison.golden,
            },
        ),
    }
}

/// Whether a recovery is the one of a comparison: it holds the hint, the line
/// that names the goldenfile, in plain text or in colour, and the step that
/// puts a moved goldenfile back.
pub open spec fn recovers(recovery: Recovery, comparison: ComparisonView) -> bool {
    &&& recovery.note@ == update_note()
    &&& recovery.error@ == changed_line(plain_label(), comparison.file) || recovery.error@
        == changed_line(painted_label(), comparison.file)
    &&& match recovery.restore {
        Some(step) => restore_of(comparison) == Some(step@),
        None => restore_of(comparison) is None,
    }
}

/// The step that puts a moved goldenfile back is the step that the update
/// pass makes for it: the failing test leaves the golden directory with what
/// was committed.
pub proof fn lemma_restore_is_update_step(mint: MintView, goldenfile: GoldenfileView)
    requires
        goldenfile.location == GoldenfileLocation::Temporary,
    ensures
        restore_of(comparison_of(mint, goldenfile)) == Some(overwrite_of(mint, goldenfile)),
{
}

/// Renders a word in bold red with `yansi::Paint`.
///
/// Trusted: the result is the word as it is where styling is switched off in
/// this process, and else the word between the codes for bold red and for
/// reset.
#[verifier::external_body]
fn bold_red(word: &str) -> (label: String)
    ensures
        label@ == word@ || label@ == painted(word@),
{
    format!("{}", word.bold().red())
}

/// Writes the line that names a changed goldenfile.
pub fn changed_notice(label: &str, file: &str) -> (line: String)
    ensures
        line@ == changed_line(label@, file@),
{
    String::from_str(label).concat(": goldenfile changed: ").concat(file)
}

impl Comparison {
    /// What is done for this goldenfile when the test is found failing: two
    /// lines are printed, and a goldenfile that was moved away is put back, so
    /// that the failure does not cost the golden directory a file.
    pub fn recovery(&self) -> (recovery: Recovery)
        ensures
            recovers(recovery, self@),
    {
        let label = bold_red("error");
        let restore = match self.location {
            GoldenfileLocation::Original => None,
            GoldenfileLocation::Temporary => Some(
                Overwrite {
                    file: self.file.clone(),
                    dest: self.new.clone(),
                    source: self.golden.clone(),
                },
            ),
        };
        Recovery {
            note: String::from_str("note: run with `UPDATE_GOLDENFILES=1` to update goldenfiles"),
            error: changed_notice(label.as_str(), self.file.as_str()),
            restore,
        }
    }
}

} // verus!
