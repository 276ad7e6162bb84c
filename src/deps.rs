use vstd::prelude::*;

use crate::command::{parse_command_line, words, CommandLine};
use crate::context::AgentInitializationContext;
use crate::error::{ErrorView, InitializationErrorKind, RqMeshError};

verus! {

pub const EMPTY_COMMAND_MESSAGE: &'static str = "Command text must be non-empty";

pub const FAILED_EXIT_MESSAGE: &'static str = "Exit code indicates error";

pub const MISSING_DEPENDENCIES_MESSAGE: &'static str =
    "Check dependency command returned empty, ensure dependencies are present";

/// What a command that ran to its end left behind.
#[derive(Debug, Clone, PartialEq, Eq)]
pub struct CommandOutput {
    /// Whether the exit status reported success.
    pub success: bool,
    pub stdout: Vec<u8>,
    pub stderr: Vec<u8>,
}

/// The outcome of one launch: the output, or the text of the error that kept the program
/// from starting.
pub type CommandRun = Result<CommandOutput, String>;

/// An ASCII whitespace byte.
pub open spec fn is_space_byte(b: u8) -> bool {
    b == 0x20u8 || b == 0x09u8 || b == 0x0Au8 || b == 0x0Cu8 || b == 0x0Du8
}

/// Output that holds no byte but whitespace.
pub open spec fn is_blank(bytes: Seq<u8>) -> bool {
    forall|i: int| 0 <= i < bytes.len() ==> is_space_byte(#[trigger] bytes[i])
}

/// The view of a unit result.
pub open spec fn result_view(r: Result<(), RqMeshError>) -> Result<(), ErrorView> {
    match r {
        Ok(()) => Ok(()),
        Err(e) => Err(e@),
    }
}

/// The error for a check command text that holds no word.
pub open spec fn empty_check_command(cmd: Seq<char>) -> ErrorView {
    ErrorView::InvalidCheckDependenciesCommand { command: cmd, message: EMPTY_COMMAND_MESSAGE@ }
}

/// The error for an install command text that holds no word.
pub open spec fn empty_install_command(cmd: Seq<char>) -> ErrorView {
    ErrorView::InvalidInstallDependenciesCommand { command: cmd, message: EMPTY_COMMAND_MESSAGE@ }
}

/// What checking for dependencies with command text `cmd` yields when the run went as `run`.
pub open spec fn check_outcome(cmd: Seq<char>, run: CommandRun) -> Result<(), ErrorView> {
    if words(cmd).len() == 0 {
        Err(empty_check_command(cmd))
    } else {
        match run {
            Err(launch) => Err(
                ErrorView::InvalidCheckDependenciesCommand { command: words(cmd)[0], message: launch@ },
            ),
            Ok(out) => if !out.success {
                Err(ErrorView::InvalidCheckDependenciesCommand { command: cmd, message: FAILED_EXIT_MESSAGE@ })
            } else if is_blank(out.stdout@) {
                Err(ErrorView::MissingRequiredDependencies { message: MISSING_DEPENDENCIES_MESSAGE@ })
            } else {
                Ok(())
            },
        }
    }
}

/// What installing dependencies with command text `cmd` yields when the run went as `run`;
/// the output itself is not looked at.
pub open spec fn install_outcome(cmd: Seq<char>, run: CommandRun) -> Result<(), ErrorView> {
    if words(cmd).len() == 0 {
        Err(empty_install_command(cmd))
    } else {
        match run {
            Err(launch) => Err(
                ErrorView::InvalidInstallDependenciesCommand { command: words(cmd)[0], message: launch@ },
            ),
            Ok(out) => if !out.success {
                Err(ErrorView::InvalidInstallDependenciesCommand { command: cmd, message: FAILED_EXIT_MESSAGE@ })
            } else {
                Ok(())
            },
        }
    }
}

pub fn is_blank_output(bytes: &Vec<u8>) -> (r: bool)
    ensures
        r == is_blank(bytes@),
{
    let mut i: usize = 0;
    while i < bytes.len()
        invariant
            i <= bytes@.len(),
            forall|k: int| 0 <= k < i ==> is_space_byte(#[trigger] bytes@[k]),
        decreases bytes@.len() - i,
    {
        let b = bytes[i];
        if !(b == 0x20u8 || b == 0x09u8 || b == 0x0Au8 || b == 0x0Cu8 || b == 0x0Du8) {
            return false;
        }
        i = i + 1;
    }
    true
}

/// The program and arguments to launch to check for dependencies.
pub fn check_dependencies_command(ctx: &AgentInitializationContext) -> (r: Result<
    CommandLine,
    RqMeshError,
>)
    ensures
        r is Err <==> words(ctx.spec_check_deps_command()).len() == 0,
        r matches Ok(c) ==> c.spec_words() == words(ctx.spec_check_deps_command()),
        r matches Err(e) ==> e@ == empty_check_command(ctx.spec_check_deps_command()),
{
    match parse_command_line(ctx.check_deps_command()) {
        Some(c) => Ok(c),
        None => Err(
            RqMeshError::InitializationError(
                InitializationErrorKind::new_invalid_check_deps_cmd(
                    ctx.check_deps_command(),
                    EMPTY_COMMAND_MESSAGE,
                ),
            ),
        ),
    }
}

/// The program and arguments to launch to install missing dependencies.
pub fn install_dependencies_command(ctx: &AgentInitializationContext) -> (r: Result<
    CommandLine,
    RqMeshError,
>)
    ensures
        r is Err <==> words(ctx.spec_install_deps_command()).len() == 0,
        r matches Ok(c) ==> c.spec_words() == words(ctx.spec_install_deps_command()),
        r matches Err(e) ==> e@ == empty_install_command(ctx.spec_install_deps_command()),
{
    match parse_command_line(ctx.install_deps_command()) {
        Some(c) => Ok(c),
        None => Err(
            RqMeshError::InitializationError(
                InitializationErrorKind::new_invalid_install_deps_cmd(
                    ctx.install_deps_command(),
                    EMPTY_COMMAND_MESSAGE,
                ),
            ),
        ),
    }
}

/// Judges a run of the check command: a failed launch or exit means the command is unusable,
/// a clean exit with blank output means dependencies are missing, anything else is success.
/// A command text with no word is unusable whatever `run` holds.
pub fn check_dependencies_present(ctx: &AgentInitializationContext, run: &CommandRun) -> (r:
    Result<(), RqMeshError>)
    ensures
        result_view(r) == check_outcome(ctx.spec_check_deps_command(), *run),
{
    let raw = ctx.check_deps_command();
    let line = match check_dependencies_command(ctx) {
        Ok(line) => line,
        Err(e) => return Err(e),
    };
    match run {
        Err(launch) => Err(
            RqMeshError::InitializationError(
                InitializationErrorKind::new_invalid_check_deps_cmd(
                    line.program.as_str(),
                    launch.as_str(),
                ),
            ),
        ),
        Ok(out) => {
            if !out.success {
                Err(
                    RqMeshError::InitializationError(
                        InitializationErrorKind::new_invalid_check_deps_cmd(
                            raw,
                            FAILED_EXIT_MESSAGE,
                        ),
                    ),
                )
            } else if is_blank_output(&out.stdout) {
                Err(
                    RqMeshError::InitializationError(
                        InitializationErrorKind::new_missing_deps(MISSING_DEPENDENCIES_MESSAGE),
                    ),
                )
            } else {
                Ok(())
            }
        },
    }
}

/// Judges a run of the install command: a failed launch or exit means the command is
/// unusable; any clean exit is success, whatever it printed.
pub fn try_install_missing_dependencies(ctx: &AgentInitializationContext, run: &CommandRun) -> (r:
    Result<(), RqMeshError>)
    ensures
        result_view(r) == install_outcome(ctx.spec_install_deps_command(), *run),
{
    let raw = ctx.install_deps_command();
    let line = match install_dependencies_command(ctx) {
        Ok(line) => line,
        Err(e) => return Err(e),
    };
    match run {
        Err(launch) => Err(
            RqMeshError::InitializationError(
                InitializationErrorKind::new_invalid_install_deps_cmd(
                    line.program.as_str(),
                    launch.as_str(),
                ),
            ),
        ),
        Ok(out) => {
            if !out.success {
                Err(
                    RqMeshError::InitializationError(
                        InitializationErrorKind::new_invalid_install_deps_cmd(
                            raw,
                            FAILED_EXIT_MESSAGE,
                        ),
                    ),
                )
            } else {
                Ok(())
            }
        },
    }
}

/// Where the dependency repair stands: which result it waits for next, or finished.
#[derive(Debug, Clone, Copy, PartialEq, Eq)]
pub enum RepairPhase {
    FirstCheck,
    Install,
    SecondCheck,
    Done,
}

/// What the repair policy asks its runner to do next.
#[derive(Debug, PartialEq, Eq)]
pub enum RepairAction {
    RunCheck,
    RunInstall,
    Finish(Result<(), RqMeshError>),
}

/// A failure that reports absent dependencies, the one failure that is repaired.
pub open spec fn is_missing_dependencies(r: Result<(), RqMeshError>) -> bool {
    r matches Err(e) && e@ is MissingRequiredDependencies
}

/// The repair's transition on the result of the step it waited for.
pub open spec fn repair_transition(phase: RepairPhase, result: Result<(), RqMeshError>) -> (
    RepairPhase,
    RepairAction,
) {
    match phase {
        RepairPhase::FirstCheck => if is_missing_dependencies(result) {
            (RepairPhase::Install, RepairAction::RunInstall)
        } else {
            (RepairPhase::Done, RepairAction::Finish(result))
        },
        RepairPhase::Install => if result is Ok {
            (RepairPhase::SecondCheck, RepairAction::RunCheck)
        } else {
            (RepairPhase::Done, RepairAction::Finish(result))
        },
        _ => (RepairPhase::Done, RepairAction::Finish(result)),
    }
}

/// The repair before anything ran: it waits for the first check.
pub fn repair_start() -> (r: (RepairPhase, RepairAction))
    ensures
        r == (RepairPhase::FirstCheck, RepairAction::RunCheck),
{
    (RepairPhase::FirstCheck, RepairAction::RunCheck)
}

/// One step of the dependency repair: check, install once only if the check found
/// dependencies missing, then check again and keep that answer.
pub fn repair_next(phase: RepairPhase, result: Result<(), RqMeshError>) -> (r: (RepairPhase, RepairAction))
    ensures
        r == repair_transition(phase, result),
{
    match phase {
        RepairPhase::FirstCheck => {
            let missing = match &result {
                Err(RqMeshError::InitializationError(
                    InitializationErrorKind::MissingRequiredDependencies { .. },
                )) => true,
                _ => false,
            };
            if missing {
                (RepairPhase::Install, RepairAction::RunInstall)
            } else {
                (RepairPhase::Done, RepairAction::Finish(result))
            }
        },
        RepairPhase::Install => {
            if result.is_ok() {
                (RepairPhase::SecondCheck, RepairAction::RunCheck)
            } else {
                (RepairPhase::Done, RepairAction::Finish(result))
            }
        },
        _ => (RepairPhase::Done, RepairAction::Finish(result)),
    }
}

/// A check whose command ran and exited with success but printed only whitespace reports
/// missing dependencies.
pub proof fn lemma_blank_check_output_means_missing(cmd: Seq<char>, out: CommandOutput)
    requires
        words(cmd).len() > 0,
        out.success,
        is_blank(out.stdout@),
    ensures
        check_outcome(cmd, Ok(out)) matches Err(e) && e is MissingRequiredDependencies,
{
}

/// A command that exits with failure is reported as an unusable check or install command,
/// never as missing dependencies, whatever it printed.
pub proof fn lemma_failed_exit_means_invalid_command(cmd: Seq<char>, out: CommandOutput)
    requires
        !out.success,
    ensures
        check_outcome(cmd, Ok(out)) matches Err(e) && e is InvalidCheckDependenciesCommand,
        install_outcome(cmd, Ok(out)) matches Err(e) && e is InvalidInstallDependenciesCommand,
{
}

/// Repair is started exactly when the first check reports missing dependencies; any other
/// first result ends the repair with that very result.
pub proof fn lemma_repair_only_when_missing(first: Result<(), RqMeshError>)
    ensures
        repair_transition(RepairPhase::FirstCheck, first).1 is RunInstall <==> is_missing_dependencies(
            first,
        ),
        !is_missing_dependencies(first) ==> repair_transition(RepairPhase::FirstCheck, first) == (
        RepairPhase::Done, RepairAction::Finish(first)),
{
}

/// A first check that ran, exited with success and printed something ends the repair at
/// once with success: nothing is installed.
pub proof fn lemma_passing_check_finishes(
    cmd: Seq<char>,
    out: CommandOutput,
    first: Result<(), RqMeshError>,
)
    requires
        words(cmd).len() > 0,
        out.success,
        !is_blank(out.stdout@),
        result_view(first) == check_outcome(cmd, Ok(out)),
    ensures
        first is Ok,
        repair_transition(RepairPhase::FirstCheck, first) == (RepairPhase::Done, RepairAction::Finish(first)),
{
}

/// After a successful install the repair ends with the second check's result, whatever it is;
/// a failed install ends it with the install's error.
pub proof fn lemma_second_check_decides(
    first: Result<(), RqMeshError>,
    install: Result<(), RqMeshError>,
    second: Result<(), RqMeshError>,
)
    requires
        is_missing_dependencies(first),
    ensures
        ({
            let s1 = repair_transition(RepairPhase::FirstCheck, first);
            let s2 = repair_transition(s1.0, install);
            &&& s1 == (RepairPhase::Install, RepairAction::RunInstall)
            &&& install is Ok ==> s2 == (RepairPhase::SecondCheck, RepairAction::RunCheck)
                && repair_transition(s2.0, second) == (RepairPhase::Done, RepairAction::Finish(second))
            &&& install is Err ==> s2 == (RepairPhase::Done, RepairAction::Finish(install))
        }),
{
}

} // verus!
