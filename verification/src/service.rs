//! Installing the program as a start-up task, and removing it again.
//!
//! Both are runs of a state machine, like the run over the disks: the run
//! asks for one piece of file-system or task-scheduler work at a time (a
//! [`ServiceAction`]), the program performs it on the paths it holds and
//! hands back the outcome (a [`ServiceAnswer`]), and the run answers with the
//! notices to write and the next action.
use vstd::prelude::*;

use crate::cli::{task_arguments_spec, Cli};
use crate::notice::Notice;

verus! {

/// The name of the start-up task.
pub const TASK_NAME: &'static str = "DisableAPM";

/// The name of the directory, under the program files directory, that the
/// program is installed to.
pub const INSTALL_DIR: &'static str = "DisableAPM";

/// The file name of the installed program.
pub const INSTALLED_EXE: &'static str = "DisableAPM.exe";

/// The description of the start-up task.
pub const TASK_DESCRIPTION: &'static str = "Disable APM for mechanical disks";

/// The directory programs are installed under: the value of the
/// `ProgramFiles` environment variable, or `C:\Program Files` when it is not
/// set.
pub open spec fn program_files_spec(env_value: Option<String>) -> Seq<char> {
    match env_value {
        Some(v) => v@,
        None => "C:\\Program Files"@,
    }
}

/// The directory programs are installed under, from the value of the
/// `ProgramFiles` environment variable (`None` when it is not set).
pub fn program_files_dir(env_value: Option<String>) -> (dir: String)
    ensures
        dir@ == program_files_spec(env_value),
{
    match env_value {
        Some(v) => v,
        None => String::from_str("C:\\Program Files"),
    }
}

/// Whether there is a start-up task to remove: only when the query says so;
/// a failed query counts as "not installed".
pub fn uninstall_needed(installed: Option<bool>) -> (b: bool)
    ensures
        b == (installed == Some(true)),
{
    match installed {
        Some(true) => true,
        _ => false,
    }
}

/// The notice written, and the result given, after registering the start-up
/// task with the given outcome.
pub open spec fn install_report_spec(outcome: Result<(), String>) -> (Notice, Result<(), String>) {
    match outcome {
        Ok(()) => (Notice::InstallSucceeded, Ok(())),
        Err(e) => (Notice::InstallFailed(e), Err(e)),
    }
}

/// The notice written, and the result given, after removing the start-up
/// task with the given outcome.
pub open spec fn uninstall_report_spec(outcome: Result<(), String>) -> (Notice, Result<(), String>) {
    match outcome {
        Ok(()) => (Notice::UninstallSucceeded, Ok(())),
        Err(e) => (Notice::UninstallFailed(e), Err(e)),
    }
}

/// Reports the outcome of registering the start-up task.
pub fn install_report(outcome: Result<(), String>) -> (report: (Notice, Result<(), String>))
    ensures
        report == install_report_spec(outcome),
{
    match outcome {
        Ok(()) => (Notice::InstallSucceeded, Ok(())),
        Err(e) => (Notice::InstallFailed(e.clone()), Err(e)),
    }
}

/// Reports the outcome of removing the start-up task.
pub fn uninstall_report(outcome: Result<(), String>) -> (report: (Notice, Result<(), String>))
    ensures
        report == uninstall_report_spec(outcome),
{
    match outcome {
        Ok(()) => (Notice::UninstallSucceeded, Ok(())),
        Err(e) => (Notice::UninstallFailed(e.clone()), Err(e)),
    }
}

/// Why installing or uninstalling failed.
#[derive(PartialEq, Eq, Debug)]
pub enum ServiceError {
    /// The install directory could not be created, with the reason.
    CreateDir(String),
    /// The path of the running program could not be found, with the reason.
    CurrentExe(String),
    /// The program could not be copied to the install directory, with the reason.
    CopyProgram(String),
    /// The install directory could not be removed, with the reason.
    RemoveDir(String),
    /// Registering or removing the start-up task failed, with the reason.
    Task(String),
}

/// The top-level message of a service error, as the program reports it.
pub open spec fn service_error_message(e: ServiceError) -> Seq<char> {
    match e {
        ServiceError::CreateDir(_) => "Failed to create install directory (check admin privileges)"@,
        ServiceError::CurrentExe(_) => "Failed to get current exe path"@,
        ServiceError::CopyProgram(_) => "Failed to copy program to system directory"@,
        ServiceError::RemoveDir(_) => "Failed to remove install directory (check admin privileges)"@,
        ServiceError::Task(e) => e@,
    }
}

/// The underlying reason a service error was caused by, if it wraps one.
pub open spec fn service_error_cause(e: ServiceError) -> Option<String> {
    match e {
        ServiceError::CreateDir(c) => Some(c),
        ServiceError::CurrentExe(c) => Some(c),
        ServiceError::CopyProgram(c) => Some(c),
        ServiceError::RemoveDir(c) => Some(c),
        ServiceError::Task(_) => None,
    }
}

impl ServiceError {
    /// The top-level message of this error.
    pub fn message(&self) -> (s: String)
        ensures
            s@ == service_error_message(*self),
    {
        match self {
            ServiceError::CreateDir(_) => String::from_str("Failed to create install directory (check admin privileges)"),
            ServiceError::CurrentExe(_) => String::from_str("Failed to get current exe path"),
            ServiceError::CopyProgram(_) => String::from_str("Failed to copy program to system directory"),
            ServiceError::RemoveDir(_) => String::from_str("Failed to remove install directory (check admin privileges)"),
            ServiceError::Task(e) => e.clone(),
        }
    }

    /// The underlying reason this error was caused by, if it wraps one.
    pub fn cause(&self) -> (c: Option<String>)
        ensures
            c == service_error_cause(*self),
    {
        match self {
            ServiceError::CreateDir(c) => Some(c.clone()),
            ServiceError::CurrentExe(c) => Some(c.clone()),
            ServiceError::CopyProgram(c) => Some(c.clone()),
            ServiceError::RemoveDir(c) => Some(c.clone()),
            ServiceError::Task(_) => None,
        }
    }
}

/// A piece of file-system or task-scheduler work, or the end of the run.
#[derive(PartialEq, Eq, Debug)]
pub enum ServiceAction {
    /// Ask whether the start-up task [`TASK_NAME`] is registered.
    QueryTaskInstalled,
    /// Read the `ProgramFiles` environment variable.
    ReadProgramFiles,
    /// Form the install directory: [`INSTALL_DIR`] under the given program
    /// files directory; tell whether it exists, and how it is shown.
    CheckInstallDir(String),
    /// Create the install directory, with its parents.
    CreateInstallDir,
    /// Find the path of the running program.
    LocateCurrentExe,
    /// Copy the running program to [`INSTALLED_EXE`] in the install
    /// directory; tell how the copy's path is shown.
    CopyProgram,
    /// Register the start-up task [`TASK_NAME`] ([`TASK_DESCRIPTION`]) to run
    /// the installed program with these arguments.
    RegisterTask(Vec<String>),
    /// Remove the install directory and everything in it.
    RemoveInstallDir,
    /// Remove the start-up task [`TASK_NAME`].
    RemoveTask,
    /// The run is over, with the program's result.
    Finish(Result<(), ServiceError>),
}

/// The abstract form of a [`ServiceAction`]: texts as character sequences.
pub enum ServiceActionView {
    QueryTaskInstalled,
    ReadProgramFiles,
    CheckInstallDir(Seq<char>),
    CreateInstallDir,
    LocateCurrentExe,
    CopyProgram,
    RegisterTask(Seq<Seq<char>>),
    RemoveInstallDir,
    RemoveTask,
    Finish(Result<(), ServiceError>),
}

impl View for ServiceAction {
    type V = ServiceActionView;

    open spec fn view(&self) -> ServiceActionView {
        match self {
            ServiceAction::QueryTaskInstalled => ServiceActionView::QueryTaskInstalled,
            ServiceAction::ReadProgramFiles => ServiceActionView::ReadProgramFiles,
            ServiceAction::CheckInstallDir(p) => ServiceActionView::CheckInstallDir(p@),
            ServiceAction::CreateInstallDir => ServiceActionView::CreateInstallDir,
            ServiceAction::LocateCurrentExe => ServiceActionView::LocateCurrentExe,
            ServiceAction::CopyProgram => ServiceActionView::CopyProgram,
            ServiceAction::RegisterTask(args) => ServiceActionView::RegisterTask(args@.map_values(|a: String| a@)),
            ServiceAction::RemoveInstallDir => ServiceActionView::RemoveInstallDir,
            ServiceAction::RemoveTask => ServiceActionView::RemoveTask,
            ServiceAction::Finish(r) => ServiceActionView::Finish(*r),
        }
    }
}

/// The outcome of a [`ServiceAction`].
#[derive(PartialEq, Eq, Debug)]
pub enum ServiceAnswer {
    /// Whether the start-up task is registered; `None` when the query failed.
    TaskInstalled(Option<bool>),
    /// The value of `ProgramFiles`; `None` when it is not set.
    ProgramFiles(Option<String>),
    /// Whether the install directory exists, and how its path is shown.
    InstallDir { exists: bool, shown: String },
    /// Whether creating or removing a directory, or registering or removing
    /// the task, succeeded, or why it failed.
    Done(Result<(), String>),
    /// Whether the running program was found, or why not.
    CurrentExe(Result<(), String>),
    /// How the copied program's path is shown, or why copying failed.
    Copied(Result<String, String>),
}

/// Where an install or uninstall run stands.
#[derive(PartialEq, Eq, Structural, Clone, Copy, Debug)]
pub enum ServiceStage {
    /// Uninstall: waiting to know whether the task is registered.
    AwaitTaskInstalled,
    /// Waiting for the program files directory.
    AwaitProgramFiles,
    /// Waiting to know whether the install directory exists.
    AwaitInstallDir,
    /// Install: waiting for the install directory to be created.
    AwaitDirCreated,
    /// Install: waiting for the path of the running program.
    AwaitCurrentExe,
    /// Install: waiting for the copy.
    AwaitCopy,
    /// Install: waiting for the task to be registered.
    AwaitTaskRegistered,
    /// Uninstall: waiting for the install directory to be removed.
    AwaitDirRemoved,
    /// Uninstall: waiting for the task to be removed.
    AwaitTaskRemoved,
    /// The run is over.
    Finished,
}

/// An install or uninstall run.
#[derive(PartialEq, Eq, Structural, Clone, Copy, Debug)]
pub struct ServiceRun {
    /// The command line; it tells installing from uninstalling, and which
    /// disk options the start-up task repeats.
    pub cli: Cli,
    pub stage: ServiceStage,
}

/// Whether a run in the given stage is waiting for an answer of this kind.
pub open spec fn service_awaits_spec(stage: ServiceStage, a: ServiceAnswer) -> bool {
    match stage {
        ServiceStage::AwaitTaskInstalled => a is TaskInstalled,
        ServiceStage::AwaitProgramFiles => a is ProgramFiles,
        ServiceStage::AwaitInstallDir => a is InstallDir,
        ServiceStage::AwaitDirCreated => a is Done,
        ServiceStage::AwaitCurrentExe => a is CurrentExe,
        ServiceStage::AwaitCopy => a is Copied,
        ServiceStage::AwaitTaskRegistered => a is Done,
        ServiceStage::AwaitDirRemoved => a is Done,
        ServiceStage::AwaitTaskRemoved => a is Done,
        ServiceStage::Finished => false,
    }
}

/// How an install run starts: the notice that installing starts, and the
/// program files directory is asked for. An uninstall run starts by asking
/// whether the task is registered.
pub open spec fn service_start_spec(cli: Cli) -> (ServiceRun, Seq<Notice>, ServiceActionView) {
    if cli.install {
        (ServiceRun { cli, stage: ServiceStage::AwaitProgramFiles }, seq![Notice::Installing], ServiceActionView::ReadProgramFiles)
    } else {
        (ServiceRun { cli, stage: ServiceStage::AwaitTaskInstalled }, seq![], ServiceActionView::QueryTaskInstalled)
    }
}

/// The result of a run from the result of registering or removing the task.
pub open spec fn task_result(result: Result<(), String>) -> Result<(), ServiceError> {
    match result {
        Ok(()) => Ok(()),
        Err(e) => Err(ServiceError::Task(e)),
    }
}

/// One step of an install or uninstall run: from its state and the answer to
/// its last action, the next state, the notices to write and the next action.
pub open spec fn service_next_spec(r: ServiceRun, a: ServiceAnswer) -> (ServiceRun, Seq<Notice>, ServiceActionView) {
    let at = |s: ServiceStage| ServiceRun { stage: s, ..r };
    let finished = at(ServiceStage::Finished);
    match (r.stage, a) {
        (ServiceStage::AwaitTaskInstalled, ServiceAnswer::TaskInstalled(installed)) => if installed == Some(true) {
            (at(ServiceStage::AwaitProgramFiles), seq![Notice::Uninstalling], ServiceActionView::ReadProgramFiles)
        } else {
            (finished, seq![Notice::NotInstalled], ServiceActionView::Finish(Ok(())))
        },
        (ServiceStage::AwaitProgramFiles, ServiceAnswer::ProgramFiles(env_value)) => (
            at(ServiceStage::AwaitInstallDir),
            seq![],
            ServiceActionView::CheckInstallDir(program_files_spec(env_value)),
        ),
        (ServiceStage::AwaitInstallDir, ServiceAnswer::InstallDir { exists, shown }) => if r.cli.install {
            if exists {
                (at(ServiceStage::AwaitCurrentExe), seq![], ServiceActionView::LocateCurrentExe)
            } else {
                (at(ServiceStage::AwaitDirCreated), seq![], ServiceActionView::CreateInstallDir)
            }
        } else {
            if exists {
                (at(ServiceStage::AwaitDirRemoved), seq![Notice::RemovedFrom(shown)], ServiceActionView::RemoveInstallDir)
            } else {
                (at(ServiceStage::AwaitTaskRemoved), seq![], ServiceActionView::RemoveTask)
            }
        },
        (ServiceStage::AwaitDirCreated, ServiceAnswer::Done(outcome)) => match outcome {
            Ok(()) => (at(ServiceStage::AwaitCurrentExe), seq![], ServiceActionView::LocateCurrentExe),
            Err(e) => (finished, seq![], ServiceActionView::Finish(Err(ServiceError::CreateDir(e)))),
        },
        (ServiceStage::AwaitCurrentExe, ServiceAnswer::CurrentExe(outcome)) => match outcome {
            Ok(()) => (at(ServiceStage::AwaitCopy), seq![], ServiceActionView::CopyProgram),
            Err(e) => (finished, seq![], ServiceActionView::Finish(Err(ServiceError::CurrentExe(e)))),
        },
        (ServiceStage::AwaitCopy, ServiceAnswer::Copied(outcome)) => match outcome {
            Ok(shown) => (
                at(ServiceStage::AwaitTaskRegistered),
                seq![Notice::InstalledTo(shown)],
                ServiceActionView::RegisterTask(task_arguments_spec(r.cli)),
            ),
            Err(e) => (finished, seq![], ServiceActionView::Finish(Err(ServiceError::CopyProgram(e)))),
        },
        (ServiceStage::AwaitTaskRegistered, ServiceAnswer::Done(outcome)) => {
            let (notice, result) = install_report_spec(outcome);
            (finished, seq![notice], ServiceActionView::Finish(task_result(result)))
        },
        (ServiceStage::AwaitDirRemoved, ServiceAnswer::Done(outcome)) => match outcome {
            Ok(()) => (at(ServiceStage::AwaitTaskRemoved), seq![], ServiceActionView::RemoveTask),
            Err(e) => (finished, seq![], ServiceActionView::Finish(Err(ServiceError::RemoveDir(e)))),
        },
        (ServiceStage::AwaitTaskRemoved, ServiceAnswer::Done(outcome)) => {
            let (notice, result) = uninstall_report_spec(outcome);
            (finished, seq![notice], ServiceActionView::Finish(task_result(result)))
        },
        _ => (r, seq![], ServiceActionView::QueryTaskInstalled),
    }
}

/// Builds the action that finishes a run after registering or removing the task.
fn finish_task(result: Result<(), String>) -> (act: ServiceAction)
    ensures
        act@ == ServiceActionView::Finish(task_result(result)),
{
    match result {
        Ok(()) => ServiceAction::Finish(Ok(())),
        Err(e) => ServiceAction::Finish(Err(ServiceError::Task(e))),
    }
}

/// What every reachable state of an install or uninstall run satisfies: the
/// stages of installing are reached only with `--install`, those of
/// uninstalling only without it.
pub open spec fn service_inv(r: ServiceRun) -> bool {
    match r.stage {
        ServiceStage::AwaitTaskInstalled => !r.cli.install,
        ServiceStage::AwaitDirRemoved => !r.cli.install,
        ServiceStage::AwaitTaskRemoved => !r.cli.install,
        ServiceStage::AwaitDirCreated => r.cli.install,
        ServiceStage::AwaitCurrentExe => r.cli.install,
        ServiceStage::AwaitCopy => r.cli.install,
        ServiceStage::AwaitTaskRegistered => r.cli.install,
        _ => true,
    }
}

/// An upper bound on the number of steps a run in this stage can still take.
pub open spec fn service_steps_left(stage: ServiceStage) -> int {
    match stage {
        ServiceStage::AwaitTaskInstalled => 8,
        ServiceStage::AwaitProgramFiles => 7,
        ServiceStage::AwaitInstallDir => 6,
        ServiceStage::AwaitDirCreated => 5,
        ServiceStage::AwaitCurrentExe => 4,
        ServiceStage::AwaitCopy => 3,
        ServiceStage::AwaitTaskRegistered => 2,
        ServiceStage::AwaitDirRemoved => 2,
        ServiceStage::AwaitTaskRemoved => 1,
        ServiceStage::Finished => 0,
    }
}

/// A run starts in a state of its invariant, and every step keeps it; the
/// command line never changes.
pub proof fn lemma_service_invariant(cli: Cli, r: ServiceRun, a: ServiceAnswer)
    ensures
        service_inv(service_start_spec(cli).0),
        service_inv(r) && service_awaits_spec(r.stage, a) ==> service_inv(service_next_spec(r, a).0),
        service_next_spec(r, a).0.cli == r.cli,
{
}

/// An install or uninstall run ends: every step lowers the number of steps
/// left, so a run takes at most eight steps.
pub proof fn law_service_run_ends(r: ServiceRun, a: ServiceAnswer)
    requires
        service_awaits_spec(r.stage, a),
    ensures
        0 <= service_steps_left(service_next_spec(r, a).0.stage) < service_steps_left(r.stage) <= 8,
{
}

/// Uninstalling when the task is not registered (or the question failed)
/// reports that and succeeds without removing anything.
pub proof fn law_nothing_to_uninstall(r: ServiceRun, installed: Option<bool>)
    requires
        r.stage == ServiceStage::AwaitTaskInstalled,
        installed != Some(true),
    ensures
        service_next_spec(r, ServiceAnswer::TaskInstalled(installed)).1 == seq![Notice::NotInstalled],
        service_next_spec(r, ServiceAnswer::TaskInstalled(installed)).2 == ServiceActionView::Finish(Ok(())),
{
}

/// An install run never removes anything, and an uninstall run never creates,
/// copies or registers anything.
pub proof fn law_install_and_uninstall_apart(r: ServiceRun, a: ServiceAnswer)
    requires
        service_inv(r),
        service_awaits_spec(r.stage, a),
    ensures
        ({
            let act = service_next_spec(r, a).2;
            &&& r.cli.install ==> !(act is RemoveInstallDir || act is RemoveTask || act is QueryTaskInstalled)
            &&& !r.cli.install ==> !(act is CreateInstallDir || act is LocateCurrentExe || act is CopyProgram
                || act is RegisterTask)
        }),
{
}

/// The start-up task is registered only after the program was copied, and it
/// repeats the disk options of the command line; the path it was copied to
/// is reported first.
pub proof fn law_register_after_copy(r: ServiceRun, a: ServiceAnswer)
    requires
        service_awaits_spec(r.stage, a),
        service_next_spec(r, a).2 is RegisterTask,
    ensures
        r.stage == ServiceStage::AwaitCopy,
        a matches ServiceAnswer::Copied(Ok(shown)) && service_next_spec(r, a).1 == seq![Notice::InstalledTo(shown)],
        service_next_spec(r, a).2 == ServiceActionView::RegisterTask(task_arguments_spec(r.cli)),
{
}

/// Uninstalling reports the install directory before removing it, and
/// removes the task only once the directory is gone (or was never there).
pub proof fn law_uninstall_order(r: ServiceRun, a: ServiceAnswer)
    requires
        service_inv(r),
        service_awaits_spec(r.stage, a),
    ensures
        service_next_spec(r, a).2 is RemoveInstallDir ==> (a matches ServiceAnswer::InstallDir { exists: true, shown }
            && service_next_spec(r, a).1 == seq![Notice::RemovedFrom(shown)]),
        service_next_spec(r, a).2 is RemoveTask ==> ((a matches ServiceAnswer::InstallDir { exists: false, .. })
            || (r.stage == ServiceStage::AwaitDirRemoved && a matches ServiceAnswer::Done(Ok(_)))),
{
}

/// The program files answer is always followed by looking at the install
/// directory under that directory (or under `C:\Program Files` when the
/// variable is not set), whether installing or uninstalling, with nothing
/// written and nothing finished yet.
pub proof fn law_program_files_then_install_dir(r: ServiceRun, env_value: Option<String>)
    requires
        r.stage == ServiceStage::AwaitProgramFiles,
    ensures
        service_next_spec(r, ServiceAnswer::ProgramFiles(env_value)).0.stage == ServiceStage::AwaitInstallDir,
        service_next_spec(r, ServiceAnswer::ProgramFiles(env_value)).1 == Seq::<Notice>::empty(),
        env_value matches Some(v) ==> service_next_spec(r, ServiceAnswer::ProgramFiles(env_value)).2
            == ServiceActionView::CheckInstallDir(v@),
        env_value is None ==> service_next_spec(r, ServiceAnswer::ProgramFiles(env_value)).2
            == ServiceActionView::CheckInstallDir("C:\\Program Files"@),
{
}

/// An uninstall run reports success, and finishes with `Ok`, only when the
/// task was found not registered, or right after the task was removed.
/// Once the task was found registered, it is never finished before the task
/// removal was answered.
pub proof fn law_uninstall_success_after_removal(r: ServiceRun, a: ServiceAnswer)
    requires
        service_inv(r),
        service_awaits_spec(r.stage, a),
        !r.cli.install,
    ensures
        service_next_spec(r, a).2 == ServiceActionView::Finish(Ok(())) ==> (
            (r.stage == ServiceStage::AwaitTaskRemoved && a matches ServiceAnswer::Done(Ok(_)))
            || (r.stage == ServiceStage::AwaitTaskInstalled && a != ServiceAnswer::TaskInstalled(Some(true)))),
        service_next_spec(r, a).1.contains(Notice::UninstallSucceeded) ==> (
            r.stage == ServiceStage::AwaitTaskRemoved && a matches ServiceAnswer::Done(Ok(_))),
        (r.stage == ServiceStage::AwaitProgramFiles || r.stage == ServiceStage::AwaitInstallDir)
            ==> !(service_next_spec(r, a).2 is Finish),
        (r.stage == ServiceStage::AwaitDirRemoved && a matches ServiceAnswer::Done(Ok(_)))
            ==> service_next_spec(r, a).2 == ServiceActionView::RemoveTask,
        r.stage == ServiceStage::AwaitTaskInstalled && a == ServiceAnswer::TaskInstalled(Some(true))
            ==> service_next_spec(r, a).2 == ServiceActionView::ReadProgramFiles
            && service_next_spec(r, a).1 == seq![Notice::Uninstalling],
{
}

/// An install run reports success, and finishes with `Ok`, only right after
/// the task was registered.
pub proof fn law_install_success_after_registration(r: ServiceRun, a: ServiceAnswer)
    requires
        service_inv(r),
        service_awaits_spec(r.stage, a),
        r.cli.install,
    ensures
        service_next_spec(r, a).2 == ServiceActionView::Finish(Ok(())) ==> (
            r.stage == ServiceStage::AwaitTaskRegistered && a matches ServiceAnswer::Done(Ok(_))),
        service_next_spec(r, a).1.contains(Notice::InstallSucceeded) ==> (
            r.stage == ServiceStage::AwaitTaskRegistered && a matches ServiceAnswer::Done(Ok(_))),
{
}

/// An install run begins by saying so and asking for the program files
/// directory; an uninstall run begins, silently, by asking whether the task
/// is registered.
pub proof fn law_service_start(cli: Cli)
    ensures
        service_start_spec(cli).0.cli == cli,
        cli.install ==> service_start_spec(cli).1 == seq![Notice::Installing]
            && service_start_spec(cli).2 == ServiceActionView::ReadProgramFiles,
        !cli.install ==> service_start_spec(cli).1 == Seq::<Notice>::empty()
            && service_start_spec(cli).2 == ServiceActionView::QueryTaskInstalled,
{
}

/// What is done with the install directory: installing creates it when it is
/// missing and otherwise goes on to find the program; uninstalling reports
/// and removes it when it exists, and otherwise goes on to remove the task.
pub proof fn law_install_dir(r: ServiceRun, exists: bool, shown: String)
    requires
        r.stage == ServiceStage::AwaitInstallDir,
    ensures
        ({
            let (next, notices, act) = service_next_spec(r, ServiceAnswer::InstallDir { exists, shown });
            &&& r.cli.install && !exists ==> act == ServiceActionView::CreateInstallDir && notices.len() == 0
            &&& r.cli.install && exists ==> act == ServiceActionView::LocateCurrentExe && notices.len() == 0
            &&& !r.cli.install && exists ==> act == ServiceActionView::RemoveInstallDir
                && notices == seq![Notice::RemovedFrom(shown)]
            &&& !r.cli.install && !exists ==> act == ServiceActionView::RemoveTask && notices.len() == 0
        }),
{
}

/// Each failure of the file-system work ends the run with that failure and
/// its reason, writing nothing; each success goes on to the next piece of
/// work of installing.
pub proof fn law_install_steps(r: ServiceRun, outcome: Result<(), String>, copied: Result<String, String>)
    ensures
        r.stage == ServiceStage::AwaitDirCreated ==> match outcome {
            Ok(_) => service_next_spec(r, ServiceAnswer::Done(outcome)).2 == ServiceActionView::LocateCurrentExe,
            Err(e) => service_next_spec(r, ServiceAnswer::Done(outcome)).2 == ServiceActionView::Finish(
                Err(ServiceError::CreateDir(e)),
            ) && service_next_spec(r, ServiceAnswer::Done(outcome)).1.len() == 0,
        },
        r.stage == ServiceStage::AwaitCurrentExe ==> match outcome {
            Ok(_) => service_next_spec(r, ServiceAnswer::CurrentExe(outcome)).2 == ServiceActionView::CopyProgram,
            Err(e) => service_next_spec(r, ServiceAnswer::CurrentExe(outcome)).2 == ServiceActionView::Finish(
                Err(ServiceError::CurrentExe(e)),
            ) && service_next_spec(r, ServiceAnswer::CurrentExe(outcome)).1.len() == 0,
        },
        r.stage == ServiceStage::AwaitCopy ==> match copied {
            Ok(shown) => service_next_spec(r, ServiceAnswer::Copied(copied)).1 == seq![Notice::InstalledTo(shown)],
            Err(e) => service_next_spec(r, ServiceAnswer::Copied(copied)).2 == ServiceActionView::Finish(
                Err(ServiceError::CopyProgram(e)),
            ) && service_next_spec(r, ServiceAnswer::Copied(copied)).1.len() == 0,
        },
        r.stage == ServiceStage::AwaitDirRemoved ==> match outcome {
            Ok(_) => service_next_spec(r, ServiceAnswer::Done(outcome)).2 == ServiceActionView::RemoveTask,
            Err(e) => service_next_spec(r, ServiceAnswer::Done(outcome)).2 == ServiceActionView::Finish(
                Err(ServiceError::RemoveDir(e)),
            ) && service_next_spec(r, ServiceAnswer::Done(outcome)).1.len() == 0,
        },
{
}

/// Registering or removing the task ends the run: success is reported as
/// such and the run succeeds; a failure is reported with its reason and the
/// run fails with that reason.
pub proof fn law_task_outcome(r: ServiceRun, outcome: Result<(), String>)
    ensures
        r.stage == ServiceStage::AwaitTaskRegistered ==> match outcome {
            Ok(_) => service_next_spec(r, ServiceAnswer::Done(outcome)).1 == seq![Notice::InstallSucceeded]
                && service_next_spec(r, ServiceAnswer::Done(outcome)).2 == ServiceActionView::Finish(Ok(())),
            Err(e) => service_next_spec(r, ServiceAnswer::Done(outcome)).1 == seq![Notice::InstallFailed(e)]
                && service_next_spec(r, ServiceAnswer::Done(outcome)).2 == ServiceActionView::Finish(
                Err(ServiceError::Task(e)),
            ),
        },
        r.stage == ServiceStage::AwaitTaskRemoved ==> match outcome {
            Ok(_) => service_next_spec(r, ServiceAnswer::Done(outcome)).1 == seq![Notice::UninstallSucceeded]
                && service_next_spec(r, ServiceAnswer::Done(outcome)).2 == ServiceActionView::Finish(Ok(())),
            Err(e) => service_next_spec(r, ServiceAnswer::Done(outcome)).1 == seq![Notice::UninstallFailed(e)]
                && service_next_spec(r, ServiceAnswer::Done(outcome)).2 == ServiceActionView::Finish(
                Err(ServiceError::Task(e)),
            ),
        },
{
}

/// Whether an answer is of the kind that answers the given action.
pub open spec fn answers_service_action(act: ServiceActionView, a: ServiceAnswer) -> bool {
    match act {
        ServiceActionView::QueryTaskInstalled => a is TaskInstalled,
        ServiceActionView::ReadProgramFiles => a is ProgramFiles,
        ServiceActionView::CheckInstallDir(_) => a is InstallDir,
        ServiceActionView::CreateInstallDir => a is Done,
        ServiceActionView::LocateCurrentExe => a is CurrentExe,
        ServiceActionView::CopyProgram => a is Copied,
        ServiceActionView::RegisterTask(_) => a is Done,
        ServiceActionView::RemoveInstallDir => a is Done,
        ServiceActionView::RemoveTask => a is Done,
        ServiceActionView::Finish(_) => false,
    }
}

/// After starting and after every step, the run waits for exactly the kind of
/// answer that the action it gave calls for.
pub proof fn law_service_awaits_the_action(cli: Cli, r: ServiceRun, a: ServiceAnswer, b: ServiceAnswer)
    ensures
        service_awaits_spec(service_start_spec(cli).0.stage, b) == answers_service_action(service_start_spec(cli).2, b),
        service_inv(r) && service_awaits_spec(r.stage, a) ==> (service_awaits_spec(service_next_spec(r, a).0.stage, b)
            == answers_service_action(service_next_spec(r, a).2, b)),
        service_awaits_spec(r.stage, a) ==> (service_next_spec(r, a).2 is Finish <==> service_next_spec(r, a).0.stage
            == ServiceStage::Finished),
{
}

impl ServiceRun {
    /// Starts an install run (when `--install` is given) or an uninstall run.
    pub fn start(cli: &Cli) -> (out: (ServiceRun, Vec<Notice>, ServiceAction))
        ensures
            out.0 == service_start_spec(*cli).0,
            out.1@ == service_start_spec(*cli).1,
            out.2@ == service_start_spec(*cli).2,
    {
        let mut notices: Vec<Notice> = Vec::new();
        if cli.install {
            notices.push(Notice::Installing);
            (ServiceRun { cli: *cli, stage: ServiceStage::AwaitProgramFiles }, notices, ServiceAction::ReadProgramFiles)
        } else {
            (ServiceRun { cli: *cli, stage: ServiceStage::AwaitTaskInstalled }, notices, ServiceAction::QueryTaskInstalled)
        }
    }

    /// Whether the run is waiting for an answer of this kind.
    pub fn awaits(&self, answer: &ServiceAnswer) -> (b: bool)
        ensures
            b == service_awaits_spec(self.stage, *answer),
    {
        match (&self.stage, answer) {
            (ServiceStage::AwaitTaskInstalled, ServiceAnswer::TaskInstalled(_)) => true,
            (ServiceStage::AwaitProgramFiles, ServiceAnswer::ProgramFiles(_)) => true,
            (ServiceStage::AwaitInstallDir, ServiceAnswer::InstallDir { .. }) => true,
            (ServiceStage::AwaitDirCreated, ServiceAnswer::Done(_)) => true,
            (ServiceStage::AwaitCurrentExe, ServiceAnswer::CurrentExe(_)) => true,
            (ServiceStage::AwaitCopy, ServiceAnswer::Copied(_)) => true,
            (ServiceStage::AwaitTaskRegistered, ServiceAnswer::Done(_)) => true,
            (ServiceStage::AwaitDirRemoved, ServiceAnswer::Done(_)) => true,
            (ServiceStage::AwaitTaskRemoved, ServiceAnswer::Done(_)) => true,
            _ => false,
        }
    }

    /// Takes the answer to the last action: moves the run on, and gives the
    /// notices to write, in order, and the next action.
    pub fn step(&mut self, answer: ServiceAnswer) -> (out: (Vec<Notice>, ServiceAction))
        requires
            service_awaits_spec(old(self).stage, answer),
        ensures
            *final(self) == service_next_spec(*old(self), answer).0,
            out.0@ == service_next_spec(*old(self), answer).1,
            out.1@ == service_next_spec(*old(self), answer).2,
    {
        let mut notices: Vec<Notice> = Vec::new();
        let (stage, action) = match (self.stage, answer) {
            (ServiceStage::AwaitTaskInstalled, ServiceAnswer::TaskInstalled(installed)) => {
                if uninstall_needed(installed) {
                    notices.push(Notice::Uninstalling);
                    (ServiceStage::AwaitProgramFiles, ServiceAction::ReadProgramFiles)
                } else {
                    notices.push(Notice::NotInstalled);
                    (ServiceStage::Finished, ServiceAction::Finish(Ok(())))
                }
            },
            (ServiceStage::AwaitProgramFiles, ServiceAnswer::ProgramFiles(env_value)) => {
                (ServiceStage::AwaitInstallDir, ServiceAction::CheckInstallDir(program_files_dir(env_value)))
            },
            (ServiceStage::AwaitInstallDir, ServiceAnswer::InstallDir { exists, shown }) => {
                if self.cli.install {
                    if exists {
                        (ServiceStage::AwaitCurrentExe, ServiceAction::LocateCurrentExe)
                    } else {
                        (ServiceStage::AwaitDirCreated, ServiceAction::CreateInstallDir)
                    }
                } else {
                    if exists {
                        notices.push(Notice::RemovedFrom(shown));
                        (ServiceStage::AwaitDirRemoved, ServiceAction::RemoveInstallDir)
                    } else {
                        (ServiceStage::AwaitTaskRemoved, ServiceAction::RemoveTask)
                    }
                }
            },
            (ServiceStage::AwaitDirCreated, ServiceAnswer::Done(outcome)) => match outcome {
                Ok(()) => (ServiceStage::AwaitCurrentExe, ServiceAction::LocateCurrentExe),
                Err(e) => (ServiceStage::Finished, ServiceAction::Finish(Err(ServiceError::CreateDir(e)))),
            },
            (ServiceStage::AwaitCurrentExe, ServiceAnswer::CurrentExe(outcome)) => match outcome {
                Ok(()) => (ServiceStage::AwaitCopy, ServiceAction::CopyProgram),
                Err(e) => (ServiceStage::Finished, ServiceAction::Finish(Err(ServiceError::CurrentExe(e)))),
            },
            (ServiceStage::AwaitCopy, ServiceAnswer::Copied(outcome)) => match outcome {
                Ok(shown) => {
                    notices.push(Notice::InstalledTo(shown));
                    (ServiceStage::AwaitTaskRegistered, ServiceAction::RegisterTask(self.cli.task_arguments()))
                },
                Err(e) => (ServiceStage::Finished, ServiceAction::Finish(Err(ServiceError::CopyProgram(e)))),
            },
            (ServiceStage::AwaitTaskRegistered, ServiceAnswer::Done(outcome)) => {
                let (notice, result) = install_report(outcome);
                notices.push(notice);
                (ServiceStage::Finished, finish_task(result))
            },
            (ServiceStage::AwaitDirRemoved, ServiceAnswer::Done(outcome)) => match outcome {
                Ok(()) => (ServiceStage::AwaitTaskRemoved, ServiceAction::RemoveTask),
                Err(e) => (ServiceStage::Finished, ServiceAction::Finish(Err(ServiceError::RemoveDir(e)))),
            },
            (ServiceStage::AwaitTaskRemoved, ServiceAnswer::Done(outcome)) => {
                let (notice, result) = uninstall_report(outcome);
                notices.push(notice);
                (ServiceStage::Finished, finish_task(result))
            },
            _ => (self.stage, ServiceAction::QueryTaskInstalled),
        };
        self.stage = stage;
        (notices, action)
    }
}

} // verus!
