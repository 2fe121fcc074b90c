//! The revision resolver: decides, from the snapshot metadata and the
//! outcomes of the two git invocations, which directive lines a build emits.
//!
//! The resolution protocol is a fixed three-stage sequence. A driver calls
//! [`snapshot_step`] with the snapshot-metadata text, if any; when it answers
//! [`Next::RunGitDir`], the driver runs `git rev-parse --git-dir` and hands
//! the outcome to [`git_dir_step`]; when that answers [`Next::RunDescribe`],
//! the driver runs `git describe` and hands the outcome to [`describe_step`].
//! Each step returns the directive lines to write, in order. The whole run's
//! lines are [`resolution_lines`].

use crate::text::{concat2, concat3, lossy_string, trim_ws, trimmed_view, utf8_string, lossy_of};
use crate::vcs_info::{parse_vcs_sha1, vcs_sha1_of};
use vstd::prelude::*;
use vstd::utf8::{decode_utf8, valid_utf8};

verus! {

/// What came of one attempt to run the git tool: the process could not be
/// spawned (with a description of the failure), or it ran to completion —
/// with the success flag of its exit status and the bytes of its standard
/// output.
pub enum GitOutcome {
    SpawnFailed(String),
    Ran { success: bool, stdout: Vec<u8> },
}

/// The mathematical shape of a [`GitOutcome`].
pub enum GitOutcomeView {
    SpawnFailed(Seq<char>),
    Ran { success: bool, stdout: Seq<u8> },
}

impl View for GitOutcome {
    type V = GitOutcomeView;

    open spec fn view(&self) -> GitOutcomeView {
        match self {
            GitOutcome::SpawnFailed(e) => GitOutcomeView::SpawnFailed(e@),
            GitOutcome::Ran { success, stdout } => GitOutcomeView::Ran {
                success: *success,
                stdout: stdout@,
            },
        }
    }
}

/// Whether the outcome of the `git rev-parse --git-dir` query shows a
/// repository governing the start directory: the tool ran and exited
/// successfully.
pub open spec fn repo_located(outcome: GitOutcomeView) -> bool {
    outcome matches GitOutcomeView::Ran { success: true, .. }
}

/// What the driver must do after a step.
pub enum Next {
    Done,
    RunGitDir,
    RunDescribe,
}

/// The snapshot-metadata text a driver read, as the resolver sees it.
pub open spec fn text_view(text: Option<&String>) -> Option<Seq<char>> {
    match text {
        Some(t) => Some(t@),
        None => None,
    }
}

/// The revision fixed by snapshot metadata, if any: the `git.sha1` field of
/// the metadata text, when the text is present and parses.
pub open spec fn snapshot_sha(text: Option<Seq<char>>) -> Option<Seq<char>> {
    match text {
        Some(t) => vcs_sha1_of(t),
        None => None,
    }
}

/// The one directive defining the revision as a build-time constant.
pub open spec fn revision_line(sha: Seq<char>) -> Seq<char> {
    "cargo:rustc-env=GIT_REVISION="@ + sha
}

/// The repository's control-metadata directory, as reported by
/// `git rev-parse --git-dir`: the output bytes decoded leniently and trimmed
/// of surrounding whitespace.
pub open spec fn git_dir_path(stdout: Seq<u8>) -> Seq<char> {
    trimmed_view(lossy_of(stdout))
}

/// The three build-cache-invalidation directives, in their fixed order:
/// index, HEAD, refs.
pub open spec fn invalidation_lines(dir: Seq<char>) -> Seq<Seq<char>> {
    seq![
        "cargo:rerun-if-changed="@ + dir + "/index"@,
        "cargo:rerun-if-changed="@ + dir + "/HEAD"@,
        "cargo:rerun-if-changed="@ + dir + "/refs"@,
    ]
}

/// The warning emitted when the git tool could not be run to locate the
/// control-metadata directory.
pub open spec fn git_dir_warning_line(err: Seq<char>) -> Seq<char> {
    "cargo:warning=Error getting git directory to get git revision: "@ + err
}

/// The warning emitted when the git tool could not be run to describe the
/// current commit. `err` names the build directory as well as the failure.
pub open spec fn describe_warning_line(err: Seq<char>) -> Seq<char> {
    "cargo:warning=Error getting git revision from "@ + err
}

/// The warning emitted when the git tool ran but found no repository
/// governing the start directory: its directory query exited unsuccessfully.
pub open spec fn no_repository_warning_line() -> Seq<char> {
    git_dir_warning_line("the git directory query exited unsuccessfully"@)
}

/// The lines of the snapshot stage: exactly one constant definition when the
/// metadata fixes a revision, nothing otherwise.
pub open spec fn snapshot_lines(text: Option<Seq<char>>) -> Seq<Seq<char>> {
    match snapshot_sha(text) {
        Some(sha) => seq![revision_line(sha)],
        None => Seq::empty(),
    }
}

/// The lines of the repository-location stage: one warning if the tool could
/// not run; one warning if it ran and its query failed, since no repository
/// then governs the start directory; else the three invalidation directives
/// for the reported directory.
pub open spec fn git_dir_lines(outcome: GitOutcomeView) -> Seq<Seq<char>> {
    match outcome {
        GitOutcomeView::SpawnFailed(e) => seq![git_dir_warning_line(e)],
        GitOutcomeView::Ran { success, stdout } => if success {
            invalidation_lines(git_dir_path(stdout))
        } else {
            seq![no_repository_warning_line()]
        },
    }
}

/// The lines of the describe stage: one warning if the tool could not run;
/// one constant definition holding the output verbatim when the run
/// succeeded and its output is valid text; nothing otherwise.
pub open spec fn describe_lines(outcome: GitOutcomeView) -> Seq<Seq<char>> {
    match outcome {
        GitOutcomeView::SpawnFailed(e) => seq![describe_warning_line(e)],
        GitOutcomeView::Ran { success, stdout } => if success && valid_utf8(stdout) {
            seq![revision_line(decode_utf8(stdout))]
        } else {
            Seq::empty()
        },
    }
}

/// Every line a full resolution run emits, in order. The git outcomes are
/// only consulted where the protocol reaches them: neither when the snapshot
/// metadata fixed the revision, and the describe outcome only when the
/// repository was located.
pub open spec fn resolution_lines(
    text: Option<Seq<char>>,
    git_dir: GitOutcomeView,
    describe: GitOutcomeView,
) -> Seq<Seq<char>> {
    if snapshot_sha(text) is Some {
        snapshot_lines(text)
    } else if repo_located(git_dir) {
        git_dir_lines(git_dir) + describe_lines(describe)
    } else {
        git_dir_lines(git_dir)
    }
}

/// First stage: consult the snapshot metadata. When it fixes a revision, the
/// returned lines define the constant and the resolution is over — the
/// repository is never consulted. Otherwise nothing is emitted and the driver
/// must run `git rev-parse --git-dir`.
pub fn snapshot_step(text: Option<&String>) -> (r: (Vec<String>, Next))
    ensures
        r.0.deep_view() == snapshot_lines(text_view(text)),
        r.1 is Done <==> snapshot_sha(text_view(text)) is Some,
        r.1 is Done || r.1 is RunGitDir,
{
    let mut lines: Vec<String> = Vec::new();
    match text {
        None => {
            proof {
                assert(lines.deep_view() =~= Seq::<Seq<char>>::empty());
            }
            (lines, Next::RunGitDir)
        },
        Some(t) => {
            match parse_vcs_sha1(t.as_str()) {
                None => {
                    proof {
                        assert(lines.deep_view() =~= Seq::<Seq<char>>::empty());
                    }
                    (lines, Next::RunGitDir)
                },
                Some(sha) => {
                    let line = concat2("cargo:rustc-env=GIT_REVISION=", sha.as_str());
                    lines.push(line);
                    proof {
                        assert(lines.deep_view() =~= seq![revision_line(sha@)]);
                    }
                    (lines, Next::Done)
                },
            }
        },
    }
}

/// Second stage: act on the attempt to locate the control-metadata
/// directory. A spawn failure, or a query that exited unsuccessfully because
/// no repository governs the start directory, yields one warning and ends the
/// resolution — no revision is ever defined from such a run. A successful
/// query yields the three invalidation directives — before any revision
/// lookup, so the build re-runs on repository changes even if that lookup
/// then fails — and the driver must run `git describe`.
pub fn git_dir_step(outcome: GitOutcome) -> (r: (Vec<String>, Next))
    ensures
        r.0.deep_view() == git_dir_lines(outcome@),
        r.1 is RunDescribe <==> repo_located(outcome@),
        r.1 is Done || r.1 is RunDescribe,
{
    let mut lines: Vec<String> = Vec::new();
    match outcome {
        GitOutcome::SpawnFailed(err) => {
            let line = concat2(
                "cargo:warning=Error getting git directory to get git revision: ",
                err.as_str(),
            );
            lines.push(line);
            proof {
                assert(lines.deep_view() =~= seq![git_dir_warning_line(err@)]);
            }
            (lines, Next::Done)
        },
        GitOutcome::Ran { success, stdout } => {
            if success {
                let decoded = lossy_string(&stdout);
                let dir = trim_ws(decoded.as_str());
                lines.push(concat3("cargo:rerun-if-changed=", dir, "/index"));
                lines.push(concat3("cargo:rerun-if-changed=", dir, "/HEAD"));
                lines.push(concat3("cargo:rerun-if-changed=", dir, "/refs"));
                proof {
                    assert(lines.deep_view() =~= invalidation_lines(git_dir_path(stdout@)));
                }
                (lines, Next::RunDescribe)
            } else {
                let line = concat2(
                    "cargo:warning=Error getting git directory to get git revision: ",
                    "the git directory query exited unsuccessfully",
                );
                lines.push(line);
                proof {
                    assert(lines.deep_view() =~= seq![no_repository_warning_line()]);
                }
                (lines, Next::Done)
            }
        },
    }
}

/// Third stage: act on the attempt to describe the current commit. A spawn
/// failure yields one warning. When the run succeeded and its output is valid
/// text, the output becomes the revision, verbatim — dirtiness suffix and all
/// — in one constant-definition directive. An unsuccessful run, like output
/// that is not text, yields nothing: no revision is defined from it.
pub fn describe_step(outcome: GitOutcome) -> (r: Vec<String>)
    ensures
        r.deep_view() == describe_lines(outcome@),
{
    let mut lines: Vec<String> = Vec::new();
    match outcome {
        GitOutcome::SpawnFailed(err) => {
            let line = concat2("cargo:warning=Error getting git revision from ", err.as_str());
            lines.push(line);
            proof {
                assert(lines.deep_view() =~= seq![describe_warning_line(err@)]);
            }
            lines
        },
        GitOutcome::Ran { success, stdout } => {
            if success {
                match utf8_string(&stdout) {
                    Some(sha) => {
                        let line = concat2("cargo:rustc-env=GIT_REVISION=", sha.as_str());
                        lines.push(line);
                        proof {
                            assert(lines.deep_view() =~= seq![
                                revision_line(decode_utf8(stdout@)),
                            ]);
                        }
                        lines
                    },
                    None => {
                        proof {
                            assert(lines.deep_view() =~= Seq::<Seq<char>>::empty());
                        }
                        lines
                    },
                }
            } else {
                proof {
                    assert(lines.deep_view() =~= Seq::<Seq<char>>::empty());
                }
                lines
            }
        },
    }
}

/// Law: a full run is the concatenation of the stage outputs, under the
/// protocol the step functions dictate — the snapshot stage alone when the
/// metadata fixed a revision; the repository-location stage alone when no
/// repository was located (the tool could not be spawned, or its query
/// failed); both repository stages otherwise.
pub proof fn lemma_stage_composition(
    text: Option<Seq<char>>,
    git_dir: GitOutcomeView,
    describe: GitOutcomeView,
)
    ensures
        snapshot_sha(text) is Some ==> resolution_lines(text, git_dir, describe)
            == snapshot_lines(text),
        snapshot_sha(text) is None && !repo_located(git_dir) ==> resolution_lines(
            text,
            git_dir,
            describe,
        ) == git_dir_lines(git_dir),
        snapshot_sha(text) is None && repo_located(git_dir) ==> resolution_lines(
            text,
            git_dir,
            describe,
        ) == git_dir_lines(git_dir) + describe_lines(describe),
{
}

/// Law: snapshot metadata takes unconditional precedence. When it fixes a
/// revision `sha`, the run emits exactly the one constant-definition line for
/// `sha`, with no invalidation directives and no warnings — and the output
/// does not depend on the repository probes at all.
pub proof fn lemma_snapshot_precedence(
    text: Option<Seq<char>>,
    git_dir: GitOutcomeView,
    describe: GitOutcomeView,
    other_git_dir: GitOutcomeView,
    other_describe: GitOutcomeView,
)
    ensures
        snapshot_sha(text) matches Some(sha) ==> resolution_lines(text, git_dir, describe)
            == seq![revision_line(sha)],
        snapshot_sha(text) is Some ==> resolution_lines(text, git_dir, describe)
            == resolution_lines(text, other_git_dir, other_describe),
{
}

/// Law: a run over a live repository that yields a textual describe output
/// emits exactly four lines — the three invalidation directives in the fixed
/// order index, HEAD, refs, each naming the reported control-metadata
/// directory, then the constant definition holding the output verbatim.
pub proof fn lemma_live_repository_output(
    text: Option<Seq<char>>,
    git_dir_stdout: Seq<u8>,
    describe_stdout: Seq<u8>,
)
    ensures
        snapshot_sha(text) is None && valid_utf8(describe_stdout) ==> {
            let lines = resolution_lines(
                text,
                GitOutcomeView::Ran { success: true, stdout: git_dir_stdout },
                GitOutcomeView::Ran { success: true, stdout: describe_stdout },
            );
            let dir = git_dir_path(git_dir_stdout);
            &&& lines.len() == 4
            &&& lines[0] == "cargo:rerun-if-changed="@ + dir + "/index"@
            &&& lines[1] == "cargo:rerun-if-changed="@ + dir + "/HEAD"@
            &&& lines[2] == "cargo:rerun-if-changed="@ + dir + "/refs"@
            &&& lines[3] == revision_line(decode_utf8(describe_stdout))
        },
{
}

/// Law: when the snapshot yields nothing and the git tool cannot even be
/// spawned, the run emits exactly the one warning line — no invalidation
/// directives and no constant definition.
pub proof fn lemma_probe_failure_output(
    text: Option<Seq<char>>,
    err: Seq<char>,
    describe: GitOutcomeView,
)
    ensures
        snapshot_sha(text) is None ==> resolution_lines(
            text,
            GitOutcomeView::SpawnFailed(err),
            describe,
        ) == seq![git_dir_warning_line(err)],
{
}

/// Law: when the snapshot yields nothing and the git tool runs but its
/// directory query exits unsuccessfully — the start directory lies in no
/// repository — the run emits exactly the one warning line: no invalidation
/// directives and no constant definition, whatever the query printed and
/// whatever a describe run would have returned.
pub proof fn lemma_no_repository_output(
    text: Option<Seq<char>>,
    stdout: Seq<u8>,
    describe: GitOutcomeView,
)
    ensures
        snapshot_sha(text) is None ==> resolution_lines(
            text,
            GitOutcomeView::Ran { success: false, stdout },
            describe,
        ) == seq![no_repository_warning_line()],
{
}

/// Law: resolution is idempotent — it is a function of the metadata text and
/// the probe outcomes alone, so runs against an unchanged repository produce
/// identical output.
pub proof fn lemma_resolution_deterministic(
    text1: Option<Seq<char>>,
    git_dir1: GitOutcomeView,
    describe1: GitOutcomeView,
    text2: Option<Seq<char>>,
    git_dir2: GitOutcomeView,
    describe2: GitOutcomeView,
)
    ensures
        text1 == text2 && git_dir1 == git_dir2 && describe1 == describe2 ==> resolution_lines(
            text1,
            git_dir1,
            describe1,
        ) == resolution_lines(text2, git_dir2, describe2),
{
}

} // verus!
