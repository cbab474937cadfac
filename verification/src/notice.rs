//! The messages the tool writes to the console.
use vstd::prelude::*;

use crate::console::ConsoleType;
use crate::text::{decimal, decimal_spec, join2, join3, join4};

verus! {

/// A message for the console. Disk numbers are 0-based indices of physical
/// drives; texts carried along are error messages or paths as the program
/// around the library renders them.
#[derive(PartialEq, Eq, Debug)]
pub enum Notice {
    /// How many disks were found.
    TotalDisks(u32),
    /// The requested disk index is not below the number of disks.
    IndexOutOfRange { index: u32, max: u32 },
    /// The requested disk is an SSD.
    TargetIsSsd(u32),
    /// A USB disk is passed over.
    SkipUsb(u32),
    /// An SSD is passed over.
    SkipSsd(u32),
    /// APM was disabled on a disk.
    ApmDisabled(u32),
    /// Disabling APM on a disk failed, with the reason.
    ApmFailed(u32, String),
    /// Installation starts.
    Installing,
    /// The program was copied to the given path.
    InstalledTo(String),
    /// The start-up task was registered.
    InstallSucceeded,
    /// Registering the start-up task failed, with the reason.
    InstallFailed(String),
    /// There is nothing to uninstall.
    NotInstalled,
    /// Uninstallation starts.
    Uninstalling,
    /// The program directory at the given path is removed.
    RemovedFrom(String),
    /// The start-up task was removed.
    UninstallSucceeded,
    /// Removing the start-up task failed, with the reason.
    UninstallFailed(String),
}

/// The kind of console message a notice is written as.
pub open spec fn notice_type(n: Notice) -> ConsoleType {
    match n {
        Notice::TotalDisks(_) => ConsoleType::Info,
        Notice::IndexOutOfRange { .. } => ConsoleType::Error,
        Notice::TargetIsSsd(_) => ConsoleType::Error,
        Notice::SkipUsb(_) => ConsoleType::Info,
        Notice::SkipSsd(_) => ConsoleType::Info,
        Notice::ApmDisabled(_) => ConsoleType::Success,
        Notice::ApmFailed(_, _) => ConsoleType::Error,
        Notice::Installing => ConsoleType::Info,
        Notice::InstalledTo(_) => ConsoleType::Info,
        Notice::InstallSucceeded => ConsoleType::Success,
        Notice::InstallFailed(_) => ConsoleType::Error,
        Notice::NotInstalled => ConsoleType::Info,
        Notice::Uninstalling => ConsoleType::Info,
        Notice::RemovedFrom(_) => ConsoleType::Info,
        Notice::UninstallSucceeded => ConsoleType::Success,
        Notice::UninstallFailed(_) => ConsoleType::Error,
    }
}

/// The text of a notice.
pub open spec fn notice_text(n: Notice) -> Seq<char> {
    match n {
        Notice::TotalDisks(c) => "Total "@ + decimal_spec(c as nat) + " disks found"@,
        Notice::IndexOutOfRange { index, max } => "Disk index "@ + decimal_spec(index as nat)
            + " is out of range, max index is "@ + decimal_spec(max as nat),
        Notice::TargetIsSsd(d) => "Disk "@ + decimal_spec(d as nat) + " is SSD, cannot disable APM"@,
        Notice::SkipUsb(d) => "Disk "@ + decimal_spec(d as nat) + " is USB, skip disabling APM"@,
        Notice::SkipSsd(d) => "Disk "@ + decimal_spec(d as nat) + " is SSD, skip disabling APM"@,
        Notice::ApmDisabled(d) => "Disabled APM for disk "@ + decimal_spec(d as nat),
        Notice::ApmFailed(d, e) => "Failed to disable APM for disk "@ + decimal_spec(d as nat)
            + ": "@ + e@,
        Notice::Installing => "Installing service......"@,
        Notice::InstalledTo(p) => "Program installed to: "@ + p@,
        Notice::InstallSucceeded => "Service installed successfully"@,
        Notice::InstallFailed(e) => "Failed to install service: "@ + e@,
        Notice::NotInstalled => "Service not installed"@,
        Notice::Uninstalling => "Uninstalling service......"@,
        Notice::RemovedFrom(p) => "Program removed from: "@ + p@,
        Notice::UninstallSucceeded => "Service uninstalled successfully"@,
        Notice::UninstallFailed(e) => "Failed to uninstall service: "@ + e@,
    }
}

impl Notice {
    /// The kind of console message this notice is written as.
    pub fn console_type(&self) -> (t: ConsoleType)
        ensures
            t == notice_type(*self),
    {
        match self {
            Notice::TotalDisks(_) => ConsoleType::Info,
            Notice::IndexOutOfRange { .. } => ConsoleType::Error,
            Notice::TargetIsSsd(_) => ConsoleType::Error,
            Notice::SkipUsb(_) => ConsoleType::Info,
            Notice::SkipSsd(_) => ConsoleType::Info,
            Notice::ApmDisabled(_) => ConsoleType::Success,
            Notice::ApmFailed(_, _) => ConsoleType::Error,
            Notice::Installing => ConsoleType::Info,
            Notice::InstalledTo(_) => ConsoleType::Info,
            Notice::InstallSucceeded => ConsoleType::Success,
            Notice::InstallFailed(_) => ConsoleType::Error,
            Notice::NotInstalled => ConsoleType::Info,
            Notice::Uninstalling => ConsoleType::Info,
            Notice::RemovedFrom(_) => ConsoleType::Info,
            Notice::UninstallSucceeded => ConsoleType::Success,
            Notice::UninstallFailed(_) => ConsoleType::Error,
        }
    }

    /// The text of this notice.
    pub fn text(&self) -> (s: String)
        ensures
            s@ == notice_text(*self),
    {
        match self {
            Notice::TotalDisks(c) => join3("Total ", decimal(*c).as_str(), " disks found"),
            Notice::IndexOutOfRange { index, max } => join4(
                "Disk index ",
                decimal(*index).as_str(),
                " is out of range, max index is ",
                decimal(*max).as_str(),
            ),
            Notice::TargetIsSsd(d) => join3("Disk ", decimal(*d).as_str(), " is SSD, cannot disable APM"),
            Notice::SkipUsb(d) => join3("Disk ", decimal(*d).as_str(), " is USB, skip disabling APM"),
            Notice::SkipSsd(d) => join3("Disk ", decimal(*d).as_str(), " is SSD, skip disabling APM"),
            Notice::ApmDisabled(d) => join2("Disabled APM for disk ", decimal(*d).as_str()),
            Notice::ApmFailed(d, e) => join4(
                "Failed to disable APM for disk ",
                decimal(*d).as_str(),
                ": ",
                e.as_str(),
            ),
            Notice::Installing => String::from_str("Installing service......"),
            Notice::InstalledTo(p) => join2("Program installed to: ", p.as_str()),
            Notice::InstallSucceeded => String::from_str("Service installed successfully"),
            Notice::InstallFailed(e) => join2("Failed to install service: ", e.as_str()),
            Notice::NotInstalled => String::from_str("Service not installed"),
            Notice::Uninstalling => String::from_str("Uninstalling service......"),
            Notice::RemovedFrom(p) => join2("Program removed from: ", p.as_str()),
            Notice::UninstallSucceeded => String::from_str("Service uninstalled successfully"),
            Notice::UninstallFailed(e) => join2("Failed to uninstall service: ", e.as_str()),
        }
    }
}

} // verus!
