//! The command line of the tool and what it asks for.
use vstd::prelude::*;

use crate::text::{decimal, decimal_spec, digits_value, join2, law_decimal_reads_back};

verus! {

/// The options given on the command line.
#[derive(PartialEq, Eq, Structural, Clone, Copy, Debug)]
pub struct Cli {
    /// `--install`: install the program and register it to run at start-up.
    pub install: bool,
    /// `--uninstall`: remove the program and its start-up registration.
    pub uninstall: bool,
    /// `--index <INDEX>`: work on this disk only (0-based).
    pub index: Option<u32>,
    /// `--usb`: include USB disks.
    pub usb: bool,
}

/// What a run of the tool does.
#[derive(PartialEq, Eq, Structural, Clone, Copy, Debug)]
pub enum Mode {
    /// Install the program as a start-up task.
    Install,
    /// Remove the start-up task and the installed program.
    Uninstall,
    /// Disable APM on the disks.
    DisableApm,
}

/// The mode a command line selects: installing wins over uninstalling, and
/// either wins over working on the disks.
pub open spec fn mode_spec(cli: Cli) -> Mode {
    if cli.install {
        Mode::Install
    } else if cli.uninstall {
        Mode::Uninstall
    } else {
        Mode::DisableApm
    }
}

/// The arguments the installed start-up task passes to the program, so that
/// it later runs on the same disks: `--index <INDEX>` as one argument when a
/// disk was named, then `--usb` when USB disks are included.
pub open spec fn task_arguments_spec(cli: Cli) -> Seq<Seq<char>> {
    let with_index = match cli.index {
        Some(i) => seq!["--index "@ + decimal_spec(i as nat)],
        None => Seq::<Seq<char>>::empty(),
    };
    if cli.usb {
        with_index.push("--usb"@)
    } else {
        with_index
    }
}

/// `--install` selects installing whatever else is given; otherwise
/// `--uninstall` selects uninstalling whatever the disk options are; with
/// neither, the tool works on the disks.
pub proof fn law_mode_choice(cli: Cli)
    ensures
        cli.install ==> mode_spec(cli) == Mode::Install,
        !cli.install && cli.uninstall ==> mode_spec(cli) == Mode::Uninstall,
        !cli.install && !cli.uninstall ==> mode_spec(cli) == Mode::DisableApm,
{
}

/// A named disk is always passed on to the start-up task, disk 0 included:
/// the first argument is `--index ` followed by the disk's decimal number,
/// and `--usb` is the last argument exactly when USB disks are included. The
/// arguments are empty only when neither option was given.
pub proof fn law_task_arguments(cli: Cli)
    ensures
        cli.index matches Some(i) ==> task_arguments_spec(cli).len() >= 1
            && task_arguments_spec(cli)[0] == "--index "@ + decimal_spec(i as nat),
        cli.index is None ==> task_arguments_spec(cli).len() == (if cli.usb { 1int } else { 0int }),
        cli.usb ==> task_arguments_spec(cli).last() == "--usb"@,
        task_arguments_spec(cli).len() == (if cli.index is Some { 1int } else { 0int }) + (if cli.usb { 1int } else { 0int }),
        (task_arguments_spec(cli).len() == 0) == (cli.index is None && !cli.usb),
        cli.index matches Some(i) ==> digits_value(task_arguments_spec(cli)[0].skip("--index "@.len() as int)) == i,
{
    if let Some(i) = cli.index {
        law_decimal_reads_back(i as nat);
        assert(task_arguments_spec(cli)[0].skip("--index "@.len() as int) =~= decimal_spec(i as nat));
    }
}

/// The decimal form of a number is never empty; in particular disk 0 is
/// passed on as `--index 0`.
pub proof fn law_index_zero_passed_on(cli: Cli)
    requires
        cli.index == Some(0u32),
    ensures
        task_arguments_spec(cli)[0] == "--index 0"@,
{
    reveal_strlit("--index 0");
    reveal_strlit("--index ");
    assert(decimal_spec(0) == seq!['0']);
    assert("--index "@ + decimal_spec(0) =~= "--index 0"@);
}

impl Cli {
    /// The mode this command line selects.
    pub fn mode(&self) -> (m: Mode)
        ensures
            m == mode_spec(*self),
    {
        if self.install {
            Mode::Install
        } else if self.uninstall {
            Mode::Uninstall
        } else {
            Mode::DisableApm
        }
    }

    /// The arguments for the start-up task.
    pub fn task_arguments(&self) -> (args: Vec<String>)
        ensures
            args@.map_values(|s: String| s@) == task_arguments_spec(*self),
    {
        let mut args: Vec<String> = Vec::new();
        match self.index {
            Some(i) => {
                args.push(join2("--index ", decimal(i).as_str()));
            },
            None => {},
        }
        if self.usb {
            args.push(String::from_str("--usb"));
        }
        proof {
            assert(args@.map_values(|s: String| s@) =~= task_arguments_spec(*self));
        }
        args
    }
}

} // verus!
