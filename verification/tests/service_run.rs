use disable_apm::{Cli, Notice, ServiceAction, ServiceAnswer, ServiceError, ServiceRun, ServiceStage};

fn install_cli(index: Option<u32>, usb: bool) -> Cli {
    Cli { install: true, uninstall: false, index, usb }
}

fn uninstall_cli() -> Cli {
    Cli { install: false, uninstall: true, index: None, usb: false }
}

fn drive(run: &mut ServiceRun, answers: Vec<ServiceAnswer>) -> (Vec<Notice>, Vec<ServiceAction>) {
    let mut notices = Vec::new();
    let mut actions = Vec::new();
    for a in answers {
        assert!(run.awaits(&a));
        let (ns, act) = run.step(a);
        notices.extend(ns);
        actions.push(act);
    }
    (notices, actions)
}

#[test]
fn install_creates_copies_and_registers() {
    let (mut run, notices, first) = ServiceRun::start(&install_cli(Some(2), true));
    assert_eq!(notices, vec![Notice::Installing]);
    assert_eq!(first, ServiceAction::ReadProgramFiles);
    let (notices, actions) = drive(
        &mut run,
        vec![
            ServiceAnswer::ProgramFiles(None),
            ServiceAnswer::InstallDir { exists: false, shown: r"C:\Program Files\DisableAPM".to_string() },
            ServiceAnswer::Done(Ok(())),
            ServiceAnswer::CurrentExe(Ok(())),
            ServiceAnswer::Copied(Ok(r"C:\Program Files\DisableAPM\DisableAPM.exe".to_string())),
            ServiceAnswer::Done(Ok(())),
        ],
    );
    assert_eq!(
        actions,
        vec![
            ServiceAction::CheckInstallDir(r"C:\Program Files".to_string()),
            ServiceAction::CreateInstallDir,
            ServiceAction::LocateCurrentExe,
            ServiceAction::CopyProgram,
            ServiceAction::RegisterTask(vec!["--index 2".to_string(), "--usb".to_string()]),
            ServiceAction::Finish(Ok(())),
        ]
    );
    assert_eq!(
        notices,
        vec![
            Notice::InstalledTo(r"C:\Program Files\DisableAPM\DisableAPM.exe".to_string()),
            Notice::InstallSucceeded,
        ]
    );
    assert_eq!(run.stage, ServiceStage::Finished);
}

#[test]
fn install_into_existing_directory_with_custom_program_files() {
    let (mut run, _, _) = ServiceRun::start(&install_cli(None, false));
    let (_, actions) = drive(
        &mut run,
        vec![
            ServiceAnswer::ProgramFiles(Some(r"D:\Apps".to_string())),
            ServiceAnswer::InstallDir { exists: true, shown: r"D:\Apps\DisableAPM".to_string() },
        ],
    );
    assert_eq!(
        actions,
        vec![ServiceAction::CheckInstallDir(r"D:\Apps".to_string()), ServiceAction::LocateCurrentExe]
    );
}

#[test]
fn install_failures() {
    let (mut run, _, _) = ServiceRun::start(&install_cli(None, false));
    let (_, actions) = drive(
        &mut run,
        vec![
            ServiceAnswer::ProgramFiles(None),
            ServiceAnswer::InstallDir { exists: false, shown: "x".to_string() },
            ServiceAnswer::Done(Err("Access is denied. (os error 5)".to_string())),
        ],
    );
    let err = ServiceError::CreateDir("Access is denied. (os error 5)".to_string());
    assert_eq!(err.message(), "Failed to create install directory (check admin privileges)");
    assert_eq!(err.cause(), Some("Access is denied. (os error 5)".to_string()));
    assert_eq!(actions.last(), Some(&ServiceAction::Finish(Err(err))));

    let (mut run, _, _) = ServiceRun::start(&install_cli(None, false));
    let (_, actions) = drive(
        &mut run,
        vec![
            ServiceAnswer::ProgramFiles(None),
            ServiceAnswer::InstallDir { exists: true, shown: "x".to_string() },
            ServiceAnswer::CurrentExe(Err("no exe".to_string())),
        ],
    );
    let err = ServiceError::CurrentExe("no exe".to_string());
    assert_eq!(err.message(), "Failed to get current exe path");
    assert_eq!(actions.last(), Some(&ServiceAction::Finish(Err(err))));

    let (mut run, _, _) = ServiceRun::start(&install_cli(None, false));
    let (notices, actions) = drive(
        &mut run,
        vec![
            ServiceAnswer::ProgramFiles(None),
            ServiceAnswer::InstallDir { exists: true, shown: "x".to_string() },
            ServiceAnswer::CurrentExe(Ok(())),
            ServiceAnswer::Copied(Err("in use".to_string())),
        ],
    );
    assert!(notices.is_empty());
    let err = ServiceError::CopyProgram("in use".to_string());
    assert_eq!(err.message(), "Failed to copy program to system directory");
    assert_eq!(actions.last(), Some(&ServiceAction::Finish(Err(err))));

    let (mut run, _, _) = ServiceRun::start(&install_cli(None, false));
    let (notices, actions) = drive(
        &mut run,
        vec![
            ServiceAnswer::ProgramFiles(None),
            ServiceAnswer::InstallDir { exists: true, shown: "x".to_string() },
            ServiceAnswer::CurrentExe(Ok(())),
            ServiceAnswer::Copied(Ok("y".to_string())),
            ServiceAnswer::Done(Err("schtasks failed".to_string())),
        ],
    );
    assert_eq!(notices, vec![Notice::InstalledTo("y".to_string()), Notice::InstallFailed("schtasks failed".to_string())]);
    let err = ServiceError::Task("schtasks failed".to_string());
    assert_eq!(err.message(), "schtasks failed");
    assert_eq!(err.cause(), None);
    assert_eq!(actions[3], ServiceAction::RegisterTask(vec![]));
    assert_eq!(actions.last(), Some(&ServiceAction::Finish(Err(err))));
}

#[test]
fn uninstall_when_not_installed() {
    for installed in [Some(false), None] {
        let (mut run, notices, first) = ServiceRun::start(&uninstall_cli());
        assert!(notices.is_empty());
        assert_eq!(first, ServiceAction::QueryTaskInstalled);
        let (notices, act) = run.step(ServiceAnswer::TaskInstalled(installed));
        assert_eq!(notices, vec![Notice::NotInstalled]);
        assert_eq!(act, ServiceAction::Finish(Ok(())));
    }
}

#[test]
fn uninstall_removes_directory_then_task() {
    let (mut run, _, _) = ServiceRun::start(&uninstall_cli());
    let (notices, actions) = drive(
        &mut run,
        vec![
            ServiceAnswer::TaskInstalled(Some(true)),
            ServiceAnswer::ProgramFiles(None),
            ServiceAnswer::InstallDir { exists: true, shown: r"C:\Program Files\DisableAPM".to_string() },
            ServiceAnswer::Done(Ok(())),
            ServiceAnswer::Done(Ok(())),
        ],
    );
    assert_eq!(
        notices,
        vec![
            Notice::Uninstalling,
            Notice::RemovedFrom(r"C:\Program Files\DisableAPM".to_string()),
            Notice::UninstallSucceeded,
        ]
    );
    assert_eq!(
        actions,
        vec![
            ServiceAction::ReadProgramFiles,
            ServiceAction::CheckInstallDir(r"C:\Program Files".to_string()),
            ServiceAction::RemoveInstallDir,
            ServiceAction::RemoveTask,
            ServiceAction::Finish(Ok(())),
        ]
    );
}

#[test]
fn uninstall_without_directory_and_failures() {
    let (mut run, _, _) = ServiceRun::start(&uninstall_cli());
    let (notices, actions) = drive(
        &mut run,
        vec![
            ServiceAnswer::TaskInstalled(Some(true)),
            ServiceAnswer::ProgramFiles(None),
            ServiceAnswer::InstallDir { exists: false, shown: "x".to_string() },
            ServiceAnswer::Done(Err("denied".to_string())),
        ],
    );
    assert_eq!(notices, vec![Notice::Uninstalling, Notice::UninstallFailed("denied".to_string())]);
    assert_eq!(actions[2], ServiceAction::RemoveTask);
    assert_eq!(actions[3], ServiceAction::Finish(Err(ServiceError::Task("denied".to_string()))));

    let (mut run, _, _) = ServiceRun::start(&uninstall_cli());
    let (_, actions) = drive(
        &mut run,
        vec![
            ServiceAnswer::TaskInstalled(Some(true)),
            ServiceAnswer::ProgramFiles(None),
            ServiceAnswer::InstallDir { exists: true, shown: "x".to_string() },
            ServiceAnswer::Done(Err("in use".to_string())),
        ],
    );
    let err = ServiceError::RemoveDir("in use".to_string());
    assert_eq!(err.message(), "Failed to remove install directory (check admin privileges)");
    assert_eq!(err.cause(), Some("in use".to_string()));
    assert_eq!(actions[3], ServiceAction::Finish(Err(err)));
}

#[test]
fn service_run_answers_only_in_turn() {
    let (run, _, _) = ServiceRun::start(&uninstall_cli());
    assert!(run.awaits(&ServiceAnswer::TaskInstalled(None)));
    assert!(!run.awaits(&ServiceAnswer::Done(Ok(()))));
}
