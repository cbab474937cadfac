use disable_apm::{Action, Answer, Cli, DiskRun, Notice, RunError};

fn cli(index: Option<u32>, usb: bool) -> Cli {
    Cli { install: false, uninstall: false, index, usb }
}

/// Feeds answers to a run and collects every notice and action.
fn drive(run: &mut DiskRun, answers: Vec<Answer>) -> (Vec<Notice>, Vec<Action>) {
    let mut notices = Vec::new();
    let mut actions = Vec::new();
    for a in answers {
        assert!(run.awaits(&a));
        let (ns, act) = run.step(a);
        notices.extend(ns);
        actions.push(act);
    }
    (notices, actions)
}

#[test]
fn all_disks_skips_usb_and_ssd() {
    let (mut run, first) = DiskRun::new(&cli(None, false));
    assert_eq!(first, Action::QueryDiskCount);
    let (notices, actions) = drive(
        &mut run,
        vec![
            Answer::DiskCount(Ok(3)),
            Answer::BusType(Ok(11)),
            Answer::IsSsd(Some(false)),
            Answer::ApmOutcome(Ok(())),
            Answer::BusType(Ok(7)),
            Answer::BusType(Ok(11)),
            Answer::IsSsd(Some(true)),
        ],
    );
    assert_eq!(
        actions,
        vec![
            Action::QueryBusType(0),
            Action::QueryIsSsd(0),
            Action::DisableApm(0),
            Action::QueryBusType(1),
            Action::QueryBusType(2),
            Action::QueryIsSsd(2),
            Action::Finish(Ok(())),
        ]
    );
    assert_eq!(
        notices,
        vec![
            Notice::TotalDisks(3),
            Notice::ApmDisabled(0),
            Notice::SkipUsb(1),
            Notice::SkipSsd(2),
        ]
    );
    assert!(run.is_finished());
    // the run over three disks ended within 3 * 3 + 2 steps
    assert!(actions.len() + 1 <= 3 * 3 + 2);
}

#[test]
fn all_disks_with_usb_never_reads_bus_type() {
    let (mut run, _) = DiskRun::new(&cli(None, true));
    let (notices, actions) = drive(
        &mut run,
        vec![
            Answer::DiskCount(Ok(2)),
            Answer::IsSsd(Some(false)),
            Answer::ApmOutcome(Err("Access is denied.".to_string())),
            Answer::IsSsd(None),
            Answer::ApmOutcome(Ok(())),
        ],
    );
    assert_eq!(
        actions,
        vec![
            Action::QueryIsSsd(0),
            Action::DisableApm(0),
            Action::QueryIsSsd(1),
            Action::DisableApm(1),
            Action::Finish(Ok(())),
        ]
    );
    assert_eq!(
        notices,
        vec![
            Notice::TotalDisks(2),
            Notice::ApmFailed(0, "Access is denied.".to_string()),
            Notice::ApmDisabled(1),
        ]
    );
}

#[test]
fn no_disks_is_success() {
    let (mut run, _) = DiskRun::new(&cli(None, false));
    let (notices, act) = run.step(Answer::DiskCount(Ok(0)));
    assert_eq!(notices, vec![Notice::TotalDisks(0)]);
    assert_eq!(act, Action::Finish(Ok(())));
    assert!(run.is_finished());
}

#[test]
fn disk_count_failure() {
    let (mut run, _) = DiskRun::new(&cli(None, false));
    let (notices, act) = run.step(Answer::DiskCount(Err("boom".to_string())));
    assert!(notices.is_empty());
    let err = RunError::DiskCount("boom".to_string());
    assert_eq!(err.message(), "Failed to get disk count");
    assert_eq!(err.cause(), Some("boom".to_string()));
    assert_eq!(act, Action::Finish(Err(err)));
}

#[test]
fn bus_type_failure_stops_the_run() {
    let (mut run, _) = DiskRun::new(&cli(None, false));
    let (_, actions) = drive(
        &mut run,
        vec![
            Answer::DiskCount(Ok(4)),
            Answer::BusType(Ok(17)),
            Answer::IsSsd(Some(true)),
            Answer::BusType(Err("The device is not ready.".to_string())),
        ],
    );
    let err = RunError::BusType { disk: 1, cause: "The device is not ready.".to_string() };
    assert_eq!(err.message(), "Failed to get bus type for disk 1");
    assert_eq!(err.cause(), Some("The device is not ready.".to_string()));
    assert_eq!(actions.last(), Some(&Action::Finish(Err(err))));
    assert!(run.is_finished());
}

#[test]
fn target_out_of_range() {
    let (mut run, _) = DiskRun::new(&cli(Some(5), false));
    let (notices, act) = run.step(Answer::DiskCount(Ok(2)));
    assert_eq!(notices, vec![Notice::TotalDisks(2), Notice::IndexOutOfRange { index: 5, max: 1 }]);
    assert_eq!(notices[1].text(), "Disk index 5 is out of range, max index is 1");
    let err = RunError::IndexOutOfRange { index: 5, max: 1 };
    assert_eq!(err.message(), "Disk index 5 is out of range, max index is 1");
    assert_eq!(err.cause(), None);
    assert_eq!(act, Action::Finish(Err(err)));
}

#[test]
fn target_index_with_no_disks_wraps_max() {
    let (mut run, _) = DiskRun::new(&cli(Some(0), false));
    let (notices, act) = run.step(Answer::DiskCount(Ok(0)));
    assert_eq!(notices[1], Notice::IndexOutOfRange { index: 0, max: u32::MAX });
    assert_eq!(act, Action::Finish(Err(RunError::IndexOutOfRange { index: 0, max: 4294967295 })));
}

#[test]
fn target_ssd_is_refused() {
    let (mut run, _) = DiskRun::new(&cli(Some(1), false));
    let (_, a1) = run.step(Answer::DiskCount(Ok(3)));
    assert_eq!(a1, Action::QueryIsSsd(1));
    let (notices, a2) = run.step(Answer::IsSsd(Some(true)));
    assert_eq!(notices, vec![Notice::TargetIsSsd(1)]);
    assert_eq!(notices[0].text(), "Disk 1 is SSD, cannot disable APM");
    assert_eq!(RunError::TargetIsSsd(1).message(), "Disk 1 is SSD, cannot disable APM");
    assert_eq!(a2, Action::Finish(Err(RunError::TargetIsSsd(1))));
}

#[test]
fn target_disk_is_disabled() {
    let (mut run, _) = DiskRun::new(&cli(Some(2), false));
    let (_, actions) = drive(
        &mut run,
        vec![Answer::DiskCount(Ok(3)), Answer::IsSsd(None), Answer::ApmOutcome(Ok(()))],
    );
    assert_eq!(
        actions,
        vec![Action::QueryIsSsd(2), Action::DisableApm(2), Action::Finish(Ok(()))]
    );
}

#[test]
fn target_disable_failure_is_the_result() {
    let (mut run, _) = DiskRun::new(&cli(Some(0), true));
    let (notices, actions) = drive(
        &mut run,
        vec![
            Answer::DiskCount(Ok(1)),
            Answer::IsSsd(Some(false)),
            Answer::ApmOutcome(Err("The request is not supported.".to_string())),
        ],
    );
    assert_eq!(
        notices[1].text(),
        "Failed to disable APM for disk 0: The request is not supported."
    );
    let err = RunError::DisableApm("The request is not supported.".to_string());
    assert_eq!(err.message(), "The request is not supported.");
    assert_eq!(err.cause(), None);
    assert_eq!(actions[2], Action::Finish(Err(err)));
}

#[test]
fn awaits_only_the_matching_answer() {
    let (mut run, _) = DiskRun::new(&cli(None, false));
    assert!(run.awaits(&Answer::DiskCount(Ok(1))));
    assert!(!run.awaits(&Answer::IsSsd(Some(true))));
    run.step(Answer::DiskCount(Ok(1)));
    assert!(run.awaits(&Answer::BusType(Ok(3))));
    assert!(!run.awaits(&Answer::ApmOutcome(Ok(()))));
    run.step(Answer::BusType(Ok(7)));
    assert!(run.is_finished());
    assert!(!run.awaits(&Answer::DiskCount(Ok(1))));
}

#[test]
fn disable_apm_for_disk_reports() {
    let (n, r) = disable_apm::disable_apm_for_disk(4, Ok(()));
    assert_eq!(n, Notice::ApmDisabled(4));
    assert_eq!(n.text(), "Disabled APM for disk 4");
    assert_eq!(r, Ok(()));
    let (n, r) = disable_apm::disable_apm_for_disk(12, Err("denied".to_string()));
    assert_eq!(n.text(), "Failed to disable APM for disk 12: denied");
    assert_eq!(n.console_type(), disable_apm::ConsoleType::Error);
    assert_eq!(r, Err("denied".to_string()));
}
