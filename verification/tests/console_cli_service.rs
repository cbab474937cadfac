use disable_apm::{
    console_line, install_report, program_files_dir, uninstall_needed, uninstall_report, Cli, Color, ConsoleType,
    Mode, Notice, TitleStyle, INSTALLED_EXE, INSTALL_DIR, TASK_DESCRIPTION, TASK_NAME,
};

#[test]
fn titles_styles_and_streams() {
    assert_eq!(ConsoleType::Info.title(), "Info");
    assert_eq!(ConsoleType::Success.title(), "Success");
    assert_eq!(ConsoleType::Warning.title(), "Warning");
    assert_eq!(ConsoleType::Error.title(), "Error");
    assert_eq!(ConsoleType::Debug.title(), "Debug");
    assert_eq!(ConsoleType::Info.style(), TitleStyle { color: Color::Cyan, on_black: false, bold: false });
    assert_eq!(ConsoleType::Success.style(), TitleStyle { color: Color::Green, on_black: false, bold: false });
    assert_eq!(ConsoleType::Warning.style(), TitleStyle { color: Color::Yellow, on_black: false, bold: false });
    assert_eq!(ConsoleType::Error.style(), TitleStyle { color: Color::Red, on_black: true, bold: true });
    assert_eq!(ConsoleType::Debug.style(), TitleStyle { color: Color::Blue, on_black: false, bold: false });
    assert!(ConsoleType::Error.uses_stderr());
    for t in [ConsoleType::Info, ConsoleType::Success, ConsoleType::Warning, ConsoleType::Debug] {
        assert!(!t.uses_stderr());
    }
}

#[test]
fn line_layout() {
    assert_eq!(console_line("Info", "Total 2 disks found"), "  Info      Total 2 disks found");
    assert_eq!(console_line("", ""), "        ");
}

#[test]
fn every_error_notice_goes_to_stderr() {
    let notices = vec![
        Notice::TotalDisks(1),
        Notice::IndexOutOfRange { index: 1, max: 0 },
        Notice::TargetIsSsd(0),
        Notice::SkipUsb(0),
        Notice::SkipSsd(0),
        Notice::ApmDisabled(0),
        Notice::ApmFailed(0, "x".to_string()),
        Notice::Installing,
        Notice::InstalledTo("p".to_string()),
        Notice::InstallSucceeded,
        Notice::InstallFailed("x".to_string()),
        Notice::NotInstalled,
        Notice::Uninstalling,
        Notice::RemovedFrom("p".to_string()),
        Notice::UninstallSucceeded,
        Notice::UninstallFailed("x".to_string()),
    ];
    let errors = [1usize, 2, 6, 10, 15];
    let successes = [5usize, 9, 14];
    for (i, n) in notices.iter().enumerate() {
        let t = n.console_type();
        if errors.contains(&i) {
            assert_eq!(t, ConsoleType::Error);
            assert!(t.uses_stderr());
        } else if successes.contains(&i) {
            assert_eq!(t, ConsoleType::Success);
        } else {
            assert_eq!(t, ConsoleType::Info);
        }
    }
}

#[test]
fn notice_texts() {
    assert_eq!(Notice::TotalDisks(3).text(), "Total 3 disks found");
    assert_eq!(
        Notice::IndexOutOfRange { index: 9, max: 4294967295 }.text(),
        "Disk index 9 is out of range, max index is 4294967295"
    );
    assert_eq!(Notice::TargetIsSsd(2).text(), "Disk 2 is SSD, cannot disable APM");
    assert_eq!(Notice::SkipUsb(1).text(), "Disk 1 is USB, skip disabling APM");
    assert_eq!(Notice::SkipSsd(0).text(), "Disk 0 is SSD, skip disabling APM");
    assert_eq!(Notice::ApmDisabled(5).text(), "Disabled APM for disk 5");
    assert_eq!(Notice::ApmFailed(5, "Access is denied.".to_string()).text(), "Failed to disable APM for disk 5: Access is denied.");
    assert_eq!(Notice::Installing.text(), "Installing service......");
    assert_eq!(
        Notice::InstalledTo(r"C:\Program Files\DisableAPM\DisableAPM.exe".to_string()).text(),
        r"Program installed to: C:\Program Files\DisableAPM\DisableAPM.exe"
    );
    assert_eq!(Notice::InstallSucceeded.text(), "Service installed successfully");
    assert_eq!(Notice::InstallFailed("no".to_string()).text(), "Failed to install service: no");
    assert_eq!(Notice::NotInstalled.text(), "Service not installed");
    assert_eq!(Notice::Uninstalling.text(), "Uninstalling service......");
    assert_eq!(Notice::RemovedFrom(r"D:\Apps\DisableAPM".to_string()).text(), r"Program removed from: D:\Apps\DisableAPM");
    assert_eq!(Notice::UninstallSucceeded.text(), "Service uninstalled successfully");
    assert_eq!(Notice::UninstallFailed("no".to_string()).text(), "Failed to uninstall service: no");
}

fn cli(install: bool, uninstall: bool, index: Option<u32>, usb: bool) -> Cli {
    Cli { install, uninstall, index, usb }
}

#[test]
fn mode_priority() {
    assert_eq!(cli(true, true, None, false).mode(), Mode::Install);
    assert_eq!(cli(true, false, Some(1), true).mode(), Mode::Install);
    assert_eq!(cli(false, true, Some(1), false).mode(), Mode::Uninstall);
    assert_eq!(cli(false, false, Some(1), true).mode(), Mode::DisableApm);
    assert_eq!(cli(false, false, None, false).mode(), Mode::DisableApm);
}

#[test]
fn task_arguments_repeat_the_disk_options() {
    assert_eq!(cli(true, false, None, false).task_arguments(), Vec::<String>::new());
    assert_eq!(cli(true, false, Some(2), false).task_arguments(), vec!["--index 2".to_string()]);
    assert_eq!(cli(true, false, None, true).task_arguments(), vec!["--usb".to_string()]);
    assert_eq!(
        cli(true, false, Some(10), true).task_arguments(),
        vec!["--index 10".to_string(), "--usb".to_string()]
    );
}

#[test]
fn program_files_default() {
    assert_eq!(program_files_dir(None), r"C:\Program Files");
    assert_eq!(program_files_dir(Some(r"D:\Programs".to_string())), r"D:\Programs");
}

#[test]
fn service_names() {
    assert_eq!(TASK_NAME, "DisableAPM");
    assert_eq!(INSTALL_DIR, "DisableAPM");
    assert_eq!(INSTALLED_EXE, "DisableAPM.exe");
    assert_eq!(TASK_DESCRIPTION, "Disable APM for mechanical disks");
}

#[test]
fn uninstall_only_when_installed() {
    assert!(uninstall_needed(Some(true)));
    assert!(!uninstall_needed(Some(false)));
    assert!(!uninstall_needed(None));
}

#[test]
fn service_reports() {
    assert_eq!(install_report(Ok(())), (Notice::InstallSucceeded, Ok(())));
    assert_eq!(
        install_report(Err("denied".to_string())),
        (Notice::InstallFailed("denied".to_string()), Err("denied".to_string()))
    );
    assert_eq!(uninstall_report(Ok(())), (Notice::UninstallSucceeded, Ok(())));
    assert_eq!(
        uninstall_report(Err("gone".to_string())),
        (Notice::UninstallFailed("gone".to_string()), Err("gone".to_string()))
    );
}
