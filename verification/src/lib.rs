//! Disabling Advanced Power Management (APM) on mechanical hard drives.
//!
//! The library holds every decision of the tool: which disks are examined and
//! in which order, which are skipped (SSDs always, USB drives unless asked for),
//! what is reported on the console, what each failure becomes, and how the raw
//! replies of the storage driver are read. The program around it performs the
//! device I/O that the library asks for and hands back the answers.
pub mod text;

pub mod cli;
pub mod console;
pub mod device;
pub mod disk_run;
pub mod notice;
pub mod service;

pub use cli::{Cli, Mode};
pub use console::{console_line, Color, ConsoleType, TitleStyle};
pub use device::{
    apm_disable_command, bus_type_from_descriptor, device_path, interface_enumeration_step, is_usb_bus,
    ssd_from_seek_penalty, AtaCommand, EnumerationStep, BUS_TYPE_OFFSET, BUS_TYPE_USB,
};
pub use disk_run::{disable_apm_for_disk, Action, Answer, DiskRun, DiskRunView, RunError, Stage};
pub use notice::Notice;
pub use service::{
    install_report, program_files_dir, uninstall_needed, uninstall_report, ServiceAction, ServiceAnswer, ServiceError,
    ServiceRun, ServiceStage, INSTALLED_EXE, INSTALL_DIR, TASK_DESCRIPTION, TASK_NAME,
};
pub use text::decimal;

