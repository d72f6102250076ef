//! The dispatcher's decisions: which process to start for a catalog entry,
//! when to retry it with elevated privileges, and what text a run yields.
//! Starting processes and waiting for them is left to the caller, which
//! feeds each run's outcome back in.

use vstd::prelude::*;
use vstd::string::*;
use crate::commands::{auto_elevate, is_permission_denied_error, mentions_denial, should_retry_with_sudo, Command, CommandView};
use crate::config::Config;
use crate::text::{
    contains_str, copy_strings, join, join_seq, lemma_views_prefix, lemma_views_push, lower_of,
    seq_contains, views_of,
};

verus! {

/// A process to start: the program and its argument vector.
#[derive(Debug)]
pub struct Invocation {
    pub program: String,
    pub args: Vec<String>,
}

pub struct InvocationView {
    pub program: Seq<char>,
    pub args: Seq<Seq<char>>,
}

impl View for Invocation {
    type V = InvocationView;

    open spec fn view(&self) -> InvocationView {
        InvocationView { program: self.program@, args: views_of(self.args@) }
    }
}

/// Whether an argument holds a shell operator: `&&`, `|`, `>` or `<`.
pub open spec fn has_shell_operator(arg: Seq<char>) -> bool {
    seq_contains(arg, "&&"@) || seq_contains(arg, "|"@) || seq_contains(arg, ">"@)
        || seq_contains(arg, "<"@)
}

/// Whether any argument holds a shell operator.
pub open spec fn needs_shell(args: Seq<Seq<char>>) -> bool {
    exists|i: int| 0 <= i < args.len() && #[trigger] has_shell_operator(args[i])
}

/// The program and its arguments flattened into one shell command line.
pub open spec fn command_line(program: Seq<char>, args: Seq<Seq<char>>) -> Seq<char> {
    program + " "@ + join_seq(args, " "@)
}

/// The invocation of an entry before any elevation: through `sh -c` when an
/// argument holds a shell operator, else the program with its arguments.
pub open spec fn plain_invocation(c: CommandView) -> InvocationView {
    if needs_shell(c.args) {
        InvocationView { program: "sh"@, args: seq!["-c"@, command_line(c.command, c.args)] }
    } else {
        InvocationView { program: c.command, args: c.args }
    }
}

/// `inv` run through the elevation tool, which takes the program and its
/// arguments as its own arguments.
pub open spec fn elevated(inv: InvocationView) -> InvocationView {
    InvocationView { program: "sudo"@, args: seq![inv.program] + inv.args }
}

/// `inv`, elevated when elevation is asked for and the user is not root.
pub open spec fn with_privilege(inv: InvocationView, elevate: bool, is_root: bool) -> InvocationView {
    if elevate && !is_root {
        elevated(inv)
    } else {
        inv
    }
}

/// The invocation of catalog entry `c`.
pub open spec fn resolved(c: CommandView, elevate: bool, is_root: bool) -> InvocationView {
    with_privilege(plain_invocation(c), elevate, is_root)
}

/// The invocation of the script at `path` with arguments `rest`: through
/// `bash` when it is available, else through `powershell -File`.
pub open spec fn script_resolved(
    path: Seq<char>,
    rest: Seq<Seq<char>>,
    elevate: bool,
    is_root: bool,
    bash_available: bool,
) -> InvocationView {
    let base = if bash_available {
        InvocationView { program: "bash"@, args: seq![path] + rest }
    } else {
        InvocationView { program: "powershell"@, args: seq!["-File"@, path] + rest }
    };
    with_privilege(base, elevate, is_root)
}

/// Whether `arg` holds a shell operator.
pub fn has_shell_operator_exec(arg: &str) -> (r: bool)
    ensures
        r == has_shell_operator(arg@),
{
    contains_str(arg, "&&") || contains_str(arg, "|") || contains_str(arg, ">") || contains_str(
        arg,
        "<",
    )
}

/// Whether any of `args` holds a shell operator.
pub fn needs_shell_exec(args: &Vec<String>) -> (r: bool)
    ensures
        r == needs_shell(views_of(args@)),
{
    let mut i: usize = 0;
    while i < args.len()
        invariant
            i <= args@.len(),
            forall|j: int| 0 <= j < i ==> !has_shell_operator(#[trigger] args@[j]@),
        decreases args@.len() - i,
    {
        if has_shell_operator_exec(args[i].as_str()) {
            assert(views_of(args@)[i as int] == args@[i as int]@);
            return true;
        }
        i = i + 1;
    }
    assert forall|j: int| 0 <= j < views_of(args@).len() implies !has_shell_operator(
        #[trigger] views_of(args@)[j],
    ) by {
        assert(views_of(args@)[j] == args@[j]@);
    }
    false
}

fn prefixed(first: String, rest: &Vec<String>) -> (r: Vec<String>)
    ensures
        views_of(r@) == seq![first@] + views_of(rest@),
{
    let mut r: Vec<String> = Vec::new();
    r.push(first);
    let mut i: usize = 0;
    while i < rest.len()
        invariant
            i <= rest@.len(),
            r@.len() == i + 1,
            views_of(r@) == seq![first@] + views_of(rest@.subrange(0, i as int)),
        decreases rest@.len() - i,
    {
        let ghost before = r@;
        r.push(rest[i].clone());
        proof {
            lemma_views_push(before, rest@[i as int]);
            lemma_views_prefix(rest@, i as int);
            assert(views_of(r@) =~= seq![first@] + views_of(rest@.subrange(0, i + 1)));
        }
        i = i + 1;
    }
    assert(rest@.subrange(0, rest@.len() as int) =~= rest@);
    r
}

fn apply_privilege(inv: Invocation, elevate: bool, is_root: bool) -> (r: Invocation)
    ensures
        r@ == with_privilege(inv@, elevate, is_root),
{
    if elevate && !is_root {
        let args = prefixed(inv.program, &inv.args);
        Invocation { program: String::from_str("sudo"), args }
    } else {
        inv
    }
}

/// The process to start for catalog entry `command`: `sh -c` with the
/// flattened command line when an argument holds a shell operator, else the
/// program with its arguments as separate tokens; then, when `elevate` is
/// set and the user is not root, the elevation tool around that.
pub fn resolve_invocation(command: &Command, elevate: bool, is_root: bool) -> (r: Invocation)
    ensures
        r@ == resolved(command@, elevate, is_root),
{
    let base = if needs_shell_exec(&command.args) {
        let line = String::from_str(command.command.as_str()).concat(" ");
        let line = line.concat(join(&command.args, " ").as_str());
        let args = vec![String::from_str("-c"), line];
        let r = Invocation { program: String::from_str("sh"), args };
        assert(r@.args =~= seq!["-c"@, command_line(command@.command, command@.args)]);
        r
    } else {
        Invocation { program: command.command.clone(), args: copy_strings(&command.args) }
    };
    apply_privilege(base, elevate, is_root)
}

/// The process to start for the script at `path` with arguments `rest`.
pub fn script_invocation(
    path: &str,
    rest: &Vec<String>,
    elevate: bool,
    is_root: bool,
    bash_available: bool,
) -> (r: Invocation)
    ensures
        r@ == script_resolved(path@, views_of(rest@), elevate, is_root, bash_available),
{
    let base = if bash_available {
        Invocation { program: String::from_str("bash"), args: prefixed(String::from_str(path), rest) }
    } else {
        let tail = prefixed(String::from_str(path), rest);
        let args = prefixed(String::from_str("-File"), &tail);
        let r = Invocation { program: String::from_str("powershell"), args };
        assert(r@.args =~= seq!["-File"@, path@] + views_of(rest@));
        r
    };
    apply_privilege(base, elevate, is_root)
}

/// A completed run: the text it yields and whether its process exited
/// successfully.
pub struct RunReport {
    pub text: String,
    pub succeeded: bool,
}

pub struct RunReportView {
    pub text: Seq<char>,
    pub succeeded: bool,
}

/// One run: its report, or the message of a run that could not start.
pub open spec fn outcome_view(r: Result<RunReport, String>) -> Result<RunReportView, Seq<char>> {
    match r {
        Ok(rep) => Ok(RunReportView { text: rep.text@, succeeded: rep.succeeded }),
        Err(e) => Err(e@),
    }
}

pub open spec fn outcome_views(v: Seq<Result<RunReport, String>>) -> Seq<Result<RunReportView, Seq<char>>> {
    v.map_values(|r: Result<RunReport, String>| outcome_view(r))
}

/// The view of a dispatch result: the text, or the message of a run that
/// could not start.
pub open spec fn result_view(r: Result<String, String>) -> Result<Seq<char>, Seq<char>> {
    match r {
        Ok(t) => Ok(t@),
        Err(e) => Err(e@),
    }
}

/// The result that a run stands for on its own.
pub open spec fn result_of(o: Result<RunReportView, Seq<char>>) -> Result<Seq<char>, Seq<char>> {
    match o {
        Ok(rep) => Ok(rep.text),
        Err(e) => Err(e),
    }
}

/// Whether a run failed: it could not start, or its process exited
/// unsuccessfully.
pub open spec fn run_failed(o: Result<RunReportView, Seq<char>>) -> bool {
    match o {
        Ok(rep) => !rep.succeeded,
        Err(_) => true,
    }
}

/// The line that heads the output of a run that was retried elevated.
pub open spec fn elevation_marker() -> Seq<char> {
    "Command elevated with sudo:\n"@
}

/// Whether a first run calls for an elevated retry, given that the policy
/// allows one: it failed, or its text reports a permission problem although
/// it exited successfully.
pub open spec fn calls_for_retry(first: Result<RunReportView, Seq<char>>, allowed: bool) -> bool {
    allowed && (run_failed(first) || mentions_denial(lower_of(first->Ok_0.text)))
}

/// The result after an elevated retry: the retry's text under the marker
/// when the retry succeeded, else the first run's result unchanged.
pub open spec fn after_retry(
    first: Result<RunReportView, Seq<char>>,
    retry: Result<RunReportView, Seq<char>>,
) -> Result<Seq<char>, Seq<char>> {
    if run_failed(retry) {
        result_of(first)
    } else {
        Ok(elevation_marker() + retry->Ok_0.text)
    }
}

/// What the capture-mode dispatcher does next: start a run (elevated or
/// not), or finish with a result.
pub enum CaptureStep {
    Run { elevate: bool },
    Finish(Result<String, String>),
}

pub enum CaptureStepView {
    Run { elevate: bool },
    Finish(Result<Seq<char>, Seq<char>>),
}

impl View for CaptureStep {
    type V = CaptureStepView;

    open spec fn view(&self) -> CaptureStepView {
        match self {
            CaptureStep::Run { elevate } => CaptureStepView::Run { elevate: *elevate },
            CaptureStep::Finish(r) => CaptureStepView::Finish(result_view(*r)),
        }
    }
}

/// The capture-mode policy, given the runs made so far: first a run without
/// elevation; after it, one elevated retry when the policy allows it and the
/// run calls for it; then the combined result.
pub open spec fn capture_next(
    runs: Seq<Result<RunReportView, Seq<char>>>,
    allowed: bool,
) -> CaptureStepView {
    if runs.len() == 0 {
        CaptureStepView::Run { elevate: false }
    } else if runs.len() == 1 {
        if calls_for_retry(runs[0], allowed) {
            CaptureStepView::Run { elevate: true }
        } else {
            CaptureStepView::Finish(result_of(runs[0]))
        }
    } else {
        CaptureStepView::Finish(after_retry(runs[0], runs[1]))
    }
}

fn result_from(r: &Result<RunReport, String>) -> (c: Result<String, String>)
    ensures
        result_view(c) == result_of(outcome_view(*r)),
{
    match r {
        Ok(rep) => Ok(rep.text.clone()),
        Err(e) => Err(e.clone()),
    }
}

/// Whether the first run calls for an elevated retry of `command` under
/// `config`.
pub fn retry_called_for(first: &Result<RunReport, String>, command: &Command, config: &Config) -> (r: bool)
    ensures
        r == calls_for_retry(outcome_view(*first), auto_elevate(command@, config.behavior.auto_sudo)),
{
    if !should_retry_with_sudo(command, config) {
        return false;
    }
    match first {
        Ok(rep) => !rep.succeeded || is_permission_denied_error(rep.text.as_str()),
        Err(_) => true,
    }
}

/// The result after an elevated retry of a run whose outcome was `first`.
pub fn combine_retry(first: &Result<RunReport, String>, retry: &Result<RunReport, String>) -> (r: Result<String, String>)
    ensures
        result_view(r) == after_retry(outcome_view(*first), outcome_view(*retry)),
{
    match retry {
        Ok(rep) => {
            if rep.succeeded {
                Ok(String::from_str("Command elevated with sudo:\n").concat(rep.text.as_str()))
            } else {
                result_from(first)
            }
        },
        Err(_) => result_from(first),
    }
}

/// The next step of capture-mode dispatch of `command`, given the runs made
/// so far, in order.
pub fn capture_step(command: &Command, config: &Config, runs: &Vec<Result<RunReport, String>>) -> (r: CaptureStep)
    ensures
        r@ == capture_next(outcome_views(runs@), auto_elevate(command@, config.behavior.auto_sudo)),
{
    let ghost views = outcome_views(runs@);
    if runs.len() == 0 {
        CaptureStep::Run { elevate: false }
    } else if runs.len() == 1 {
        assert(views[0] == outcome_view(runs@[0]));
        if retry_called_for(&runs[0], command, config) {
            CaptureStep::Run { elevate: true }
        } else {
            CaptureStep::Finish(result_from(&runs[0]))
        }
    } else {
        assert(views[0] == outcome_view(runs@[0]));
        assert(views[1] == outcome_view(runs@[1]));
        CaptureStep::Finish(combine_retry(&runs[0], &runs[1]))
    }
}

/// The text of a completed run of a catalog entry: on failure the error
/// text (or the exit status when there is none), headed by a hint when it
/// reports a permission problem; on success the standard output, or the
/// error output when only that is present.
pub open spec fn command_text(
    stdout: Seq<char>,
    stderr: Seq<char>,
    succeeded: bool,
    status: Seq<char>,
) -> Seq<char> {
    if !succeeded {
        let message = if stderr.len() > 0 {
            "Error: "@ + stderr
        } else {
            "Command failed with exit code: "@ + status
        };
        if mentions_denial(lower_of(stderr)) {
            "Permission denied. Try running with elevated privileges.\n"@ + message
        } else {
            message
        }
    } else {
        success_text(stdout, stderr)
    }
}

/// The text of a successful run: its standard output, or its error output
/// when only that is present.
pub open spec fn success_text(stdout: Seq<char>, stderr: Seq<char>) -> Seq<char> {
    if stdout.len() == 0 && stderr.len() > 0 {
        stderr
    } else {
        stdout
    }
}

/// The text of a completed run of a script.
pub open spec fn script_text(
    stdout: Seq<char>,
    stderr: Seq<char>,
    succeeded: bool,
    status: Seq<char>,
) -> Seq<char> {
    if !succeeded {
        if stderr.len() > 0 {
            "Script execution failed: "@ + stderr
        } else {
            "Script failed with exit code: "@ + status
        }
    } else {
        success_text(stdout, stderr)
    }
}

fn success_output(stdout: &str, stderr: &str) -> (r: String)
    ensures
        r@ == success_text(stdout@, stderr@),
{
    if stdout.unicode_len() == 0 && stderr.unicode_len() > 0 {
        String::from_str(stderr)
    } else {
        String::from_str(stdout)
    }
}

/// The text that a completed run of a catalog entry yields; `status` is
/// the exit status as the platform describes it.
pub fn command_output_text(stdout: &str, stderr: &str, succeeded: bool, status: &str) -> (r: String)
    ensures
        r@ == command_text(stdout@, stderr@, succeeded, status@),
{
    if !succeeded {
        let message = if stderr.unicode_len() > 0 {
            String::from_str("Error: ").concat(stderr)
        } else {
            String::from_str("Command failed with exit code: ").concat(status)
        };
        if is_permission_denied_error(stderr) {
            String::from_str("Permission denied. Try running with elevated privileges.\n").concat(
                message.as_str(),
            )
        } else {
            message
        }
    } else {
        success_output(stdout, stderr)
    }
}

/// The text that a completed run of a script yields.
pub fn script_output_text(stdout: &str, stderr: &str, succeeded: bool, status: &str) -> (r: String)
    ensures
        r@ == script_text(stdout@, stderr@, succeeded, status@),
{
    if !succeeded {
        if stderr.unicode_len() > 0 {
            String::from_str("Script execution failed: ").concat(stderr)
        } else {
            String::from_str("Script failed with exit code: ").concat(status)
        }
    } else {
        success_output(stdout, stderr)
    }
}

/// How a run attached to the terminal ended.
pub enum TerminalOutcome {
    Succeeded,
    Failed { code: Option<i32> },
    LaunchFailed,
}

/// Whether an exit code may stem from missing privileges.
pub open spec fn permission_like_code(code: Option<i32>) -> bool {
    match code {
        Some(c) => c == 1 || c == 126 || c == 127,
        None => false,
    }
}

/// Whether an interactive run of `c` that ended with `outcome` is retried
/// elevated: only a run that was not already elevated, when the policy
/// allows it, and when the program could not start or exited with a code
/// that may stem from missing privileges.
pub open spec fn terminal_retry(c: CommandView, auto_sudo: bool, outcome: TerminalOutcome) -> bool {
    !c.requires_sudo && auto_elevate(c, auto_sudo) && match outcome {
        TerminalOutcome::Succeeded => false,
        TerminalOutcome::Failed { code } => permission_like_code(code),
        TerminalOutcome::LaunchFailed => true,
    }
}

/// Whether the interactive run of `command` that ended with `outcome` is
/// retried elevated. The first interactive run is elevated exactly when the
/// entry requires it.
pub fn interactive_retry(command: &Command, config: &Config, outcome: &TerminalOutcome) -> (r: bool)
    ensures
        r == terminal_retry(command@, config.behavior.auto_sudo, *outcome),
{
    if command.requires_sudo || !should_retry_with_sudo(command, config) {
        return false;
    }
    match outcome {
        TerminalOutcome::Succeeded => false,
        TerminalOutcome::Failed { code } => match code {
            Some(c) => *c == 1 || *c == 126 || *c == 127,
            None => false,
        },
        TerminalOutcome::LaunchFailed => true,
    }
}

/// What the interactive dispatcher does next: start a run attached to the
/// terminal, or stop.
pub enum TerminalStep {
    Run(Invocation),
    Done,
}

pub enum TerminalStepView {
    Run(InvocationView),
    Done,
}

impl View for TerminalStep {
    type V = TerminalStepView;

    open spec fn view(&self) -> TerminalStepView {
        match self {
            TerminalStep::Run(inv) => TerminalStepView::Run(inv@),
            TerminalStep::Done => TerminalStepView::Done,
        }
    }
}

/// The interactive policy, given how the runs made so far ended: first a run
/// elevated exactly when the entry requires it; after it, one elevated retry
/// when `terminal_retry` says so; then stop.
pub open spec fn terminal_next(
    c: CommandView,
    auto_sudo: bool,
    is_root: bool,
    outcomes: Seq<TerminalOutcome>,
) -> TerminalStepView {
    if outcomes.len() == 0 {
        TerminalStepView::Run(resolved(c, c.requires_sudo, is_root))
    } else if outcomes.len() == 1 && terminal_retry(c, auto_sudo, outcomes[0]) {
        TerminalStepView::Run(resolved(c, true, is_root))
    } else {
        TerminalStepView::Done
    }
}

/// The next step of interactive dispatch of `command`, given how the runs
/// made so far ended, in order.
pub fn terminal_step(command: &Command, config: &Config, is_root: bool, outcomes: &Vec<TerminalOutcome>) -> (r: TerminalStep)
    ensures
        r@ == terminal_next(command@, config.behavior.auto_sudo, is_root, outcomes@),
{
    if outcomes.len() == 0 {
        TerminalStep::Run(resolve_invocation(command, command.requires_sudo, is_root))
    } else if outcomes.len() == 1 && interactive_retry(command, config, &outcomes[0]) {
        TerminalStep::Run(resolve_invocation(command, true, is_root))
    } else {
        TerminalStep::Done
    }
}

/// An entry that requires elevation and whose first, plain run failed (it
/// could not start or exited unsuccessfully) gets exactly one elevated
/// retry: the first step runs it plainly, the second runs it elevated, and
/// the third finishes, whatever the retry yielded.
pub proof fn lemma_single_elevated_retry(
    c: CommandView,
    auto_sudo: bool,
    first: Result<RunReportView, Seq<char>>,
    retry: Result<RunReportView, Seq<char>>,
)
    requires
        c.requires_sudo,
        run_failed(first),
    ensures
        capture_next(seq![], auto_elevate(c, auto_sudo)) == (CaptureStepView::Run { elevate: false }),
        capture_next(seq![first], auto_elevate(c, auto_sudo)) == (CaptureStepView::Run { elevate: true }),
        capture_next(seq![first, retry], auto_elevate(c, auto_sudo)) is Finish,
{
}

/// An elevated retry that fails (it could not start, or exited
/// unsuccessfully) leaves the first run's result as the result, unchanged.
pub proof fn lemma_failed_retry_keeps_first(
    first: Result<RunReportView, Seq<char>>,
    retry: Result<RunReportView, Seq<char>>,
    allowed: bool,
)
    requires
        run_failed(retry),
    ensures
        capture_next(seq![first, retry], allowed) == CaptureStepView::Finish(result_of(first)),
{
}

/// With automatic elevation on, an entry whose plain run fails and whose
/// elevated retry succeeds with text `listing` yields the marker followed
/// by that listing.
pub proof fn lemma_failed_run_elevated_listing(
    c: CommandView,
    first: Result<RunReportView, Seq<char>>,
    listing: Seq<char>,
)
    requires
        run_failed(first),
    ensures
        capture_next(seq![first], auto_elevate(c, true)) == (CaptureStepView::Run { elevate: true }),
        capture_next(
            seq![first, Ok(RunReportView { text: listing, succeeded: true })],
            auto_elevate(c, true),
        ) == CaptureStepView::Finish(Ok(elevation_marker() + listing)),
{
}

/// Without shell operators in its arguments and without elevation, an
/// entry runs as its program with its arguments, unchanged.
pub proof fn lemma_plain_entry_runs_directly(c: CommandView, is_root: bool)
    requires
        forall|i: int| 0 <= i < c.args.len() ==> !has_shell_operator(#[trigger] c.args[i]),
    ensures
        resolved(c, false, is_root) == (InvocationView { program: c.command, args: c.args }),
{
}

/// An argument holding `&&` sends the entry through `sh -c` with the program
/// and its arguments joined by single spaces (when no elevation applies).
pub proof fn lemma_and_operator_uses_shell(c: CommandView, i: int, elevate: bool, is_root: bool)
    requires
        0 <= i < c.args.len(),
        seq_contains(c.args[i], "&&"@),
        !elevate || is_root,
    ensures
        resolved(c, elevate, is_root) == (InvocationView {
            program: "sh"@,
            args: seq!["-c"@, c.command + " "@ + join_seq(c.args, " "@)],
        }),
{
    assert(has_shell_operator(c.args[i]));
}

/// Resolution keeps no state: entries with equal views resolve to equal
/// invocations, however often it is done.
pub proof fn lemma_resolution_deterministic(c1: CommandView, c2: CommandView, elevate: bool, is_root: bool)
    requires
        c1 == c2,
    ensures
        resolved(c1, elevate, is_root) == resolved(c2, elevate, is_root),
{
}

} // verus!
