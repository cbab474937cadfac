//! The run over the disks: which disk is examined when, which are skipped,
//! and on which APM is disabled.
//!
//! The run is a state machine. It asks for one piece of device I/O at a time
//! (an [`Action`]); the program performs it and hands the outcome back as an
//! [`Answer`], and the run answers with the console notices to write and the
//! next action, until it finishes with the program's result.
use vstd::prelude::*;

use crate::cli::Cli;
use crate::device::BUS_TYPE_USB;
use crate::notice::Notice;
use crate::text::{decimal, decimal_spec, join2, join3, join4};

verus! {

/// Why a run over the disks failed.
#[derive(PartialEq, Eq, Debug)]
pub enum RunError {
    /// Counting the disks failed, with the reason.
    DiskCount(String),
    /// The requested disk index is not below the number of disks; `max` is
    /// the highest index (the count minus one, wrapping when there is no disk).
    IndexOutOfRange { index: u32, max: u32 },
    /// The requested disk is an SSD.
    TargetIsSsd(u32),
    /// Reading the bus type of a disk failed, with the reason.
    BusType { disk: u32, cause: String },
    /// Disabling APM on the requested disk failed, with the reason.
    DisableApm(String),
}

/// The top-level message of a run error, as the program reports it.
pub open spec fn run_error_message(e: RunError) -> Seq<char> {
    match e {
        RunError::DiskCount(_) => "Failed to get disk count"@,
        RunError::IndexOutOfRange { index, max } => "Disk index "@ + decimal_spec(index as nat)
            + " is out of range, max index is "@ + decimal_spec(max as nat),
        RunError::TargetIsSsd(d) => "Disk "@ + decimal_spec(d as nat) + " is SSD, cannot disable APM"@,
        RunError::BusType { disk, .. } => "Failed to get bus type for disk "@ + decimal_spec(disk as nat),
        RunError::DisableApm(e) => e@,
    }
}

/// The underlying reason a run error was caused by, if it wraps one.
pub open spec fn run_error_cause(e: RunError) -> Option<String> {
    match e {
        RunError::DiskCount(c) => Some(c),
        RunError::BusType { cause, .. } => Some(cause),
        _ => None,
    }
}

impl RunError {
    /// The top-level message of this error.
    pub fn message(&self) -> (s: String)
        ensures
            s@ == run_error_message(*self),
    {
        match self {
            RunError::DiskCount(_) => String::from_str("Failed to get disk count"),
            RunError::IndexOutOfRange { index, max } => join4(
                "Disk index ",
                decimal(*index).as_str(),
                " is out of range, max index is ",
                decimal(*max).as_str(),
            ),
            RunError::TargetIsSsd(d) => join3("Disk ", decimal(*d).as_str(), " is SSD, cannot disable APM"),
            RunError::BusType { disk, .. } => join2("Failed to get bus type for disk ", decimal(*disk).as_str()),
            RunError::DisableApm(e) => e.clone(),
        }
    }

    /// The underlying reason this error was caused by, if it wraps one.
    pub fn cause(&self) -> (c: Option<String>)
        ensures
            c == run_error_cause(*self),
    {
        match self {
            RunError::DiskCount(c) => Some(c.clone()),
            RunError::BusType { cause, .. } => Some(cause.clone()),
            _ => None,
        }
    }
}

/// A piece of device I/O the run asks for, or its end.
#[derive(PartialEq, Eq, Debug)]
pub enum Action {
    /// Count the physical disks.
    QueryDiskCount,
    /// Read the storage bus type of a disk.
    QueryBusType(u32),
    /// Ask whether a disk is an SSD (it incurs no seek penalty).
    QueryIsSsd(u32),
    /// Send the command that disables APM to a disk.
    DisableApm(u32),
    /// The run is over, with the program's result.
    Finish(Result<(), RunError>),
}

/// The outcome of an [`Action`].
#[derive(PartialEq, Eq, Debug)]
pub enum Answer {
    /// The number of disks, or why counting failed.
    DiskCount(Result<u32, String>),
    /// The bus type code of a disk, or why it could not be read.
    BusType(Result<i32, String>),
    /// Whether the disk is an SSD; `None` when the query failed.
    IsSsd(Option<bool>),
    /// Whether disabling APM succeeded, or why it failed.
    ApmOutcome(Result<(), String>),
}

/// Where a run stands.
#[derive(PartialEq, Eq, Structural, Clone, Copy, Debug)]
pub enum Stage {
    /// Waiting for the number of disks.
    AwaitCount,
    /// A single requested disk: waiting to know whether it is an SSD.
    TargetSsd { disk: u32 },
    /// A single requested disk: waiting for the outcome of disabling APM.
    TargetApm { disk: u32 },
    /// All disks: waiting for the bus type of `disk`.
    Bus { disk: u32, count: u32 },
    /// All disks: waiting to know whether `disk` is an SSD; `bus` is the bus
    /// type that was read for it (none when USB disks are included).
    Ssd { disk: u32, count: u32, bus: Option<i32> },
    /// All disks: waiting for the outcome of disabling APM on `disk`.
    Apm { disk: u32, count: u32, bus: Option<i32> },
    /// The run is over.
    Finished,
}

/// The abstract state of a run.
#[derive(PartialEq, Eq, Structural, Clone, Copy, Debug)]
pub struct DiskRunView {
    /// The single disk asked for, if any.
    pub target: Option<u32>,
    /// Whether USB disks are included.
    pub include_usb: bool,
    pub stage: Stage,
}

/// A run over the disks.
pub struct DiskRun {
    target: Option<u32>,
    include_usb: bool,
    stage: Stage,
}

impl View for DiskRun {
    type V = DiskRunView;

    closed spec fn view(&self) -> DiskRunView {
        DiskRunView { target: self.target, include_usb: self.include_usb, stage: self.stage }
    }
}

/// What every reachable state of a run satisfies.
pub open spec fn run_inv(v: DiskRunView) -> bool {
    match v.stage {
        Stage::AwaitCount => true,
        Stage::TargetSsd { disk } => v.target == Some(disk),
        Stage::TargetApm { disk } => v.target == Some(disk),
        Stage::Bus { disk, count } => v.target is None && !v.include_usb && disk < count,
        Stage::Ssd { disk, count, bus } => {
            &&& v.target is None
            &&& disk < count
            &&& (v.include_usb <==> bus is None)
            &&& (bus matches Some(b) ==> b != BUS_TYPE_USB)
        },
        Stage::Apm { disk, count, bus } => {
            &&& v.target is None
            &&& disk < count
            &&& (v.include_usb <==> bus is None)
            &&& (bus matches Some(b) ==> b != BUS_TYPE_USB)
        },
        Stage::Finished => true,
    }
}

/// Whether a run in the given stage is waiting for an answer of this kind.
pub open spec fn awaits_spec(stage: Stage, a: Answer) -> bool {
    match stage {
        Stage::AwaitCount => a is DiskCount,
        Stage::TargetSsd { .. } => a is IsSsd,
        Stage::TargetApm { .. } => a is ApmOutcome,
        Stage::Bus { .. } => a is BusType,
        Stage::Ssd { .. } => a is IsSsd,
        Stage::Apm { .. } => a is ApmOutcome,
        Stage::Finished => false,
    }
}

/// The notice written, and the result given, after trying to disable APM on
/// `disk` with the given outcome.
pub open spec fn apm_report_spec(disk: u32, outcome: Result<(), String>) -> (Notice, Result<(), String>) {
    match outcome {
        Ok(()) => (Notice::ApmDisabled(disk), Ok(())),
        Err(e) => (Notice::ApmFailed(disk, e), Err(e)),
    }
}

/// The highest disk index reported when a requested index is out of range:
/// the count minus one, wrapping to `u32::MAX` when there is no disk.
pub open spec fn max_index(count: u32) -> u32 {
    if count == 0 {
        u32::MAX
    } else {
        (count - 1) as u32
    }
}

/// Starts examining `disk` of `count` disks.
pub open spec fn visit_spec(include_usb: bool, disk: u32, count: u32) -> (Stage, Action) {
    if include_usb {
        (Stage::Ssd { disk, count, bus: None }, Action::QueryIsSsd(disk))
    } else {
        (Stage::Bus { disk, count }, Action::QueryBusType(disk))
    }
}

/// Moves on from `disk` of `count` disks: to the next disk, or to the end.
pub open spec fn advance_spec(include_usb: bool, disk: u32, count: u32) -> (Stage, Action) {
    if disk + 1 >= count {
        (Stage::Finished, Action::Finish(Ok(())))
    } else {
        visit_spec(include_usb, (disk + 1) as u32, count)
    }
}

/// One step of a run: from its state and the answer to its last action, the
/// next state, the notices to write (in order) and the next action.
pub open spec fn next_spec(v: DiskRunView, a: Answer) -> (DiskRunView, Seq<Notice>, Action) {
    let with_stage = |s: Stage| DiskRunView { stage: s, ..v };
    match (v.stage, a) {
        (Stage::AwaitCount, Answer::DiskCount(Err(e))) =>
            (with_stage(Stage::Finished), seq![], Action::Finish(Err(RunError::DiskCount(e)))),
        (Stage::AwaitCount, Answer::DiskCount(Ok(count))) => match v.target {
            Some(index) => if index >= count {
                let max = max_index(count);
                (
                    with_stage(Stage::Finished),
                    seq![Notice::TotalDisks(count), Notice::IndexOutOfRange { index, max }],
                    Action::Finish(Err(RunError::IndexOutOfRange { index, max })),
                )
            } else {
                (
                    with_stage(Stage::TargetSsd { disk: index }),
                    seq![Notice::TotalDisks(count)],
                    Action::QueryIsSsd(index),
                )
            },
            None => if count == 0 {
                (with_stage(Stage::Finished), seq![Notice::TotalDisks(count)], Action::Finish(Ok(())))
            } else {
                let (s, act) = visit_spec(v.include_usb, 0, count);
                (with_stage(s), seq![Notice::TotalDisks(count)], act)
            },
        },
        (Stage::TargetSsd { disk }, Answer::IsSsd(ssd)) => if ssd == Some(true) {
            (
                with_stage(Stage::Finished),
                seq![Notice::TargetIsSsd(disk)],
                Action::Finish(Err(RunError::TargetIsSsd(disk))),
            )
        } else {
            (with_stage(Stage::TargetApm { disk }), seq![], Action::DisableApm(disk))
        },
        (Stage::TargetApm { disk }, Answer::ApmOutcome(outcome)) => {
            let (notice, result) = apm_report_spec(disk, outcome);
            let finish = match result {
                Ok(()) => Ok(()),
                Err(e) => Err(RunError::DisableApm(e)),
            };
            (with_stage(Stage::Finished), seq![notice], Action::Finish(finish))
        },
        (Stage::Bus { disk, count }, Answer::BusType(Err(e))) => (
            with_stage(Stage::Finished),
            seq![],
            Action::Finish(Err(RunError::BusType { disk, cause: e })),
        ),
        (Stage::Bus { disk, count }, Answer::BusType(Ok(bus))) => if bus == BUS_TYPE_USB {
            let (s, act) = advance_spec(v.include_usb, disk, count);
            (with_stage(s), seq![Notice::SkipUsb(disk)], act)
        } else {
            (with_stage(Stage::Ssd { disk, count, bus: Some(bus) }), seq![], Action::QueryIsSsd(disk))
        },
        (Stage::Ssd { disk, count, bus }, Answer::IsSsd(ssd)) => if ssd == Some(true) {
            let (s, act) = advance_spec(v.include_usb, disk, count);
            (with_stage(s), seq![Notice::SkipSsd(disk)], act)
        } else {
            (with_stage(Stage::Apm { disk, count, bus }), seq![], Action::DisableApm(disk))
        },
        (Stage::Apm { disk, count, bus }, Answer::ApmOutcome(outcome)) => {
            let (notice, _result) = apm_report_spec(disk, outcome);
            let (s, act) = advance_spec(v.include_usb, disk, count);
            (with_stage(s), seq![notice], act)
        },
        _ => (v, seq![], Action::QueryDiskCount),
    }
}

/// Reports the outcome of disabling APM on `disk`: the notice to write and
/// the result to give. Success is reported as such and gives `Ok`; a failure
/// is reported with its reason, and the same reason is given back.
pub fn disable_apm_for_disk(disk: u32, outcome: Result<(), String>) -> (report: (Notice, Result<(), String>))
    ensures
        report == apm_report_spec(disk, outcome),
{
    match outcome {
        Ok(()) => (Notice::ApmDisabled(disk), Ok(())),
        Err(e) => (Notice::ApmFailed(disk, e.clone()), Err(e)),
    }
}

/// The disk a stage of a run over all disks is at, with the number of disks.
pub open spec fn stage_position(s: Stage) -> Option<(u32, u32)> {
    match s {
        Stage::Bus { disk, count } => Some((disk, count)),
        Stage::Ssd { disk, count, .. } => Some((disk, count)),
        Stage::Apm { disk, count, .. } => Some((disk, count)),
        _ => None,
    }
}

/// An upper bound on the number of steps a run in this state can still take.
pub open spec fn steps_left(v: DiskRunView) -> int {
    match v.stage {
        Stage::AwaitCount => 0x4_0000_0000int,
        Stage::TargetSsd { .. } => 2int,
        Stage::TargetApm { .. } => 1,
        Stage::Bus { disk, count } => 3 * (count - disk),
        Stage::Ssd { disk, count, .. } => 3 * (count - disk) - 1,
        Stage::Apm { disk, count, .. } => 3 * (count - disk) - 2,
        Stage::Finished => 0,
    }
}

/// Every step keeps the invariant of a run.
pub proof fn lemma_step_keeps_invariant(v: DiskRunView, a: Answer)
    requires
        run_inv(v),
        awaits_spec(v.stage, a),
    ensures
        run_inv(next_spec(v, a).0),
        next_spec(v, a).0.target == v.target,
        next_spec(v, a).0.include_usb == v.include_usb,
{
}

/// A run ends: every step strictly lowers the number of steps left, which is
/// never negative, so a run takes at most `3 * count + 2` steps after the
/// disks are counted.
pub proof fn law_run_ends(v: DiskRunView, a: Answer)
    requires
        run_inv(v),
        awaits_spec(v.stage, a),
    ensures
        0 <= steps_left(next_spec(v, a).0) < steps_left(v),
        steps_left(v) >= 0,
{
}

/// SSDs are never touched: APM is disabled on a disk only right after the
/// question whether that very disk is an SSD was answered with anything but
/// "yes" (a failed question counts as "no").
pub proof fn law_ssd_never_touched(v: DiskRunView, a: Answer, disk: u32)
    requires
        run_inv(v),
        awaits_spec(v.stage, a),
        next_spec(v, a).2 == Action::DisableApm(disk),
    ensures
        a is IsSsd,
        a->IsSsd_0 != Some(true),
        v.stage == (Stage::TargetSsd { disk }) || (v.stage is Ssd && v.stage->Ssd_disk == disk),
{
}

/// USB disks are skipped by default: on a run over all disks without
/// `--usb`, APM is disabled on a disk only after its bus type was read and
/// found not to be USB (the bus type a disk is remembered with is the one
/// read for it); a disk found on the USB bus is passed over with a notice,
/// and its SSD question is never asked.
pub proof fn law_usb_skipped_by_default(v: DiskRunView, a: Answer, disk: u32)
    requires
        run_inv(v),
        awaits_spec(v.stage, a),
        v.target is None,
        !v.include_usb,
    ensures
        next_spec(v, a).2 == Action::DisableApm(disk) ==> (v.stage matches Stage::Ssd { disk: d, bus: Some(b), .. } && d == disk && b != BUS_TYPE_USB),
        next_spec(v, a).0.stage matches Stage::Ssd { disk: d, bus: Some(b), .. } ==> (
            v.stage matches Stage::Bus { disk: d2, .. } && d2 == d && a == Answer::BusType(Ok(b))),
        (v.stage matches Stage::Bus { disk: d, .. } && d == disk && a == Answer::BusType(Ok(BUS_TYPE_USB))) ==> {
            &&& next_spec(v, a).1 == seq![Notice::SkipUsb(disk)]
            &&& next_spec(v, a).2 != Action::QueryIsSsd(disk)
            &&& next_spec(v, a).2 != Action::DisableApm(disk)
        },
{
}

/// With `--usb`, bus types are never read.
pub proof fn law_usb_included_not_queried(v: DiskRunView, a: Answer, disk: u32)
    requires
        run_inv(v),
        awaits_spec(v.stage, a),
        v.include_usb,
    ensures
        next_spec(v, a).2 != Action::QueryBusType(disk),
{
}

/// With `--index`, only the named disk is ever asked about or changed, and
/// no bus type is read; an index not below the number of disks ends the run
/// with that error before any disk is touched.
pub proof fn law_target_only(v: DiskRunView, a: Answer, index: u32, disk: u32)
    requires
        run_inv(v),
        awaits_spec(v.stage, a),
        v.target == Some(index),
    ensures
        next_spec(v, a).2 == Action::QueryIsSsd(disk) ==> disk == index,
        next_spec(v, a).2 == Action::DisableApm(disk) ==> disk == index,
        next_spec(v, a).2 != Action::QueryBusType(disk),
        forall|count: u32|
            v.stage == Stage::AwaitCount && a == Answer::DiskCount(Ok(count)) && index >= count
                ==> #[trigger] next_spec(v, Answer::DiskCount(Ok(count))).2 == Action::Finish(
                Err(RunError::IndexOutOfRange { index, max: max_index(count) }),
            ),
{
}

/// A run with `--index` succeeds only when APM was disabled on that disk.
pub proof fn law_target_result(v: DiskRunView, a: Answer)
    requires
        run_inv(v),
        awaits_spec(v.stage, a),
        v.target is Some,
        next_spec(v, a).2 == Action::Finish(Ok(())),
    ensures
        v.stage is TargetApm,
        a matches Answer::ApmOutcome(Ok(_)),
{
}

/// A run over all disks examines the disks one after another in increasing
/// order, starting at disk 0: each step stays at the same disk or moves to
/// the next one, and the run ends successfully only after the last disk
/// (or when there is none). A failure to disable APM on one disk does not
/// stop the run.
pub proof fn law_disks_in_order(v: DiskRunView, a: Answer)
    requires
        run_inv(v),
        awaits_spec(v.stage, a),
        v.target is None,
    ensures
        ({
            let next = next_spec(v, a).0.stage;
            stage_position(next) matches Some((d2, c2)) ==> match stage_position(v.stage) {
                Some((d, c)) => c2 == c && (d2 == d || d2 == d + 1),
                None => d2 == 0 && a == Answer::DiskCount(Ok(c2)),
            }
        }),
        next_spec(v, a).2 == Action::Finish(Ok(())) ==> match stage_position(v.stage) {
            Some((d, c)) => d + 1 == c,
            None => a == Answer::DiskCount(Ok(0)),
        },
        (v.stage is Apm && a is ApmOutcome) ==> !(next_spec(v, a).2 matches Action::Finish(Err(_))),
{
}

/// The report on disabling APM: success is told as a success and gives `Ok`;
/// a failure is told as an error with its reason and gives that reason back.
pub proof fn law_apm_report(disk: u32, outcome: Result<(), String>)
    ensures
        (apm_report_spec(disk, outcome).1 is Ok) == (outcome is Ok),
        crate::notice::notice_type(apm_report_spec(disk, outcome).0) == if outcome is Ok {
            crate::console::ConsoleType::Success
        } else {
            crate::console::ConsoleType::Error
        },
        outcome matches Err(e) ==> apm_report_spec(disk, outcome).1 == Err::<(), String>(e),
{
}

/// A run that ends because the requested disk is out of range or is an SSD
/// writes on the console the same message it fails with.
pub proof fn law_error_told_twice(index: u32, max: u32)
    ensures
        crate::notice::notice_text(Notice::IndexOutOfRange { index, max })
            == run_error_message(RunError::IndexOutOfRange { index, max }),
        crate::notice::notice_text(Notice::TargetIsSsd(index)) == run_error_message(RunError::TargetIsSsd(index)),
{
}

/// In a run over all disks without `--usb`, a disk whose bus type is read
/// and is anything but USB is not passed over: the run asks next whether that
/// same disk is an SSD, remembering the bus type, and writes nothing.
pub proof fn law_non_usb_disk_is_examined(v: DiskRunView, disk: u32, count: u32, bus: i32)
    requires
        run_inv(v),
        v.stage == (Stage::Bus { disk, count }),
        bus != BUS_TYPE_USB,
    ensures
        next_spec(v, Answer::BusType(Ok(bus))).0.stage == (Stage::Ssd { disk, count, bus: Some(bus) }),
        next_spec(v, Answer::BusType(Ok(bus))).1 == Seq::<Notice>::empty(),
        next_spec(v, Answer::BusType(Ok(bus))).2 == Action::QueryIsSsd(disk),
{
}

/// A disk is reported as USB and passed over only when the bus type read
/// for it is exactly the USB code, and then the run moves past it.
pub proof fn law_skip_usb_only_for_usb(v: DiskRunView, a: Answer, d: u32)
    requires
        run_inv(v),
        awaits_spec(v.stage, a),
        next_spec(v, a).1.contains(Notice::SkipUsb(d)),
    ensures
        a == Answer::BusType(Ok(BUS_TYPE_USB)),
        v.stage is Bus && v.stage->Bus_disk == d,
        next_spec(v, a).2 != Action::QueryIsSsd(d),
        next_spec(v, a).2 != Action::DisableApm(d),
{
}

/// In a run over all disks, a disk that is not known to be an SSD (the
/// answer is "no", or the question failed) gets the disable-APM command
/// next, with nothing written; an SSD is passed over with a notice.
pub proof fn law_non_ssd_disk_is_disabled(v: DiskRunView, disk: u32, count: u32, bus: Option<i32>, ssd: Option<bool>)
    requires
        run_inv(v),
        v.stage == (Stage::Ssd { disk, count, bus }),
    ensures
        ssd != Some(true) ==> next_spec(v, Answer::IsSsd(ssd)).2 == Action::DisableApm(disk)
            && next_spec(v, Answer::IsSsd(ssd)).1 == Seq::<Notice>::empty(),
        ssd == Some(true) ==> next_spec(v, Answer::IsSsd(ssd)).1 == seq![Notice::SkipSsd(disk)]
            && next_spec(v, Answer::IsSsd(ssd)).2 != Action::DisableApm(disk),
{
}

/// With `--index`, a named disk that is not known to be an SSD (the answer
/// is "no", or the question failed) gets the disable-APM command next, with
/// nothing written; it is refused as an SSD only when the answer is "yes".
pub proof fn law_target_not_ssd_is_disabled(v: DiskRunView, disk: u32, ssd: Option<bool>)
    requires
        run_inv(v),
        v.stage == (Stage::TargetSsd { disk }),
    ensures
        ssd != Some(true) ==> next_spec(v, Answer::IsSsd(ssd)).2 == Action::DisableApm(disk)
            && next_spec(v, Answer::IsSsd(ssd)).1 == Seq::<Notice>::empty()
            && next_spec(v, Answer::IsSsd(ssd)).0.stage == (Stage::TargetApm { disk }),
        ssd == Some(true) ==> next_spec(v, Answer::IsSsd(ssd)).1 == seq![Notice::TargetIsSsd(disk)]
            && next_spec(v, Answer::IsSsd(ssd)).2 == Action::Finish(Err(RunError::TargetIsSsd(disk))),
{
}

/// A run refuses its named disk as an SSD only when the SSD question about
/// that disk was answered "yes".
pub proof fn law_target_refused_only_if_ssd(v: DiskRunView, a: Answer, d: u32)
    requires
        run_inv(v),
        awaits_spec(v.stage, a),
        next_spec(v, a).2 == Action::Finish(Err(RunError::TargetIsSsd(d))),
    ensures
        a == Answer::IsSsd(Some(true)),
        v.stage == (Stage::TargetSsd { disk: d }),
{
}

/// Once the disks are counted, the count is written, and a run over all
/// disks starts at disk 0 (with its bus type unless `--usb`), while a run on
/// a named disk within range asks whether that disk is an SSD.
pub proof fn law_after_count(v: DiskRunView, count: u32)
    requires
        v.stage == Stage::AwaitCount,
    ensures
        next_spec(v, Answer::DiskCount(Ok(count))).1[0] == Notice::TotalDisks(count),
        v.target is None && count > 0 && !v.include_usb ==> next_spec(v, Answer::DiskCount(Ok(count))).2
            == Action::QueryBusType(0),
        v.target is None && count > 0 && v.include_usb ==> next_spec(v, Answer::DiskCount(Ok(count))).2
            == Action::QueryIsSsd(0),
        v.target is None && count == 0 ==> next_spec(v, Answer::DiskCount(Ok(count))).2 == Action::Finish(Ok(())),
        forall|i: u32| v.target == Some(i) && i < count ==> next_spec(v, Answer::DiskCount(Ok(count))).2
            == Action::QueryIsSsd(i),
{
}

/// A failure to count the disks ends the run at once with that reason, and
/// nothing is written.
pub proof fn law_count_failure(v: DiskRunView, e: String)
    requires
        v.stage == Stage::AwaitCount,
    ensures
        next_spec(v, Answer::DiskCount(Err(e))).1 == Seq::<Notice>::empty(),
        next_spec(v, Answer::DiskCount(Err(e))).2 == Action::Finish(Err(RunError::DiskCount(e))),
{
}

/// A named disk at or above the number of disks is reported after the count,
/// with the highest valid index (one less than the count), and the run fails
/// with the same index and maximum.
pub proof fn law_target_out_of_range(v: DiskRunView, index: u32, count: u32)
    requires
        v.stage == Stage::AwaitCount,
        v.target == Some(index),
        index >= count,
    ensures
        next_spec(v, Answer::DiskCount(Ok(count))).1 == seq![
            Notice::TotalDisks(count),
            Notice::IndexOutOfRange { index, max: max_index(count) },
        ],
        next_spec(v, Answer::DiskCount(Ok(count))).2 == Action::Finish(
            Err(RunError::IndexOutOfRange { index, max: max_index(count) }),
        ),
        count > 0 ==> max_index(count) + 1 == count,
{
}

/// Sending the command to the named disk ends the run: success is reported
/// and the run succeeds; a failure is reported with its reason and the run
/// fails with that reason.
pub proof fn law_target_outcome(v: DiskRunView, disk: u32, outcome: Result<(), String>)
    requires
        v.stage == (Stage::TargetApm { disk }),
    ensures
        next_spec(v, Answer::ApmOutcome(outcome)).0.stage == Stage::Finished,
        outcome is Ok ==> next_spec(v, Answer::ApmOutcome(outcome)).1 == seq![Notice::ApmDisabled(disk)]
            && next_spec(v, Answer::ApmOutcome(outcome)).2 == Action::Finish(Ok(())),
        outcome matches Err(e) ==> next_spec(v, Answer::ApmOutcome(outcome)).1 == seq![Notice::ApmFailed(disk, e)]
            && next_spec(v, Answer::ApmOutcome(outcome)).2 == Action::Finish(Err(RunError::DisableApm(e))),
{
}

/// A failure to read a disk's bus type ends a run over all disks with that
/// disk and reason, and nothing is written.
pub proof fn law_bus_failure(v: DiskRunView, disk: u32, count: u32, e: String)
    requires
        v.stage == (Stage::Bus { disk, count }),
    ensures
        next_spec(v, Answer::BusType(Err(e))).1 == Seq::<Notice>::empty(),
        next_spec(v, Answer::BusType(Err(e))).2 == Action::Finish(Err(RunError::BusType { disk, cause: e })),
{
}

/// What follows a disk that is done with (passed over, or after the command
/// was sent to it): the next disk's first question, or, after the last disk,
/// the end of the run with success.
pub proof fn law_next_disk(include_usb: bool, disk: u32, count: u32)
    requires
        disk < count,
    ensures
        disk + 1 == count ==> advance_spec(include_usb, disk, count).1 == Action::Finish(Ok(())),
        disk + 1 < count && include_usb ==> advance_spec(include_usb, disk, count).1 == Action::QueryIsSsd(
            (disk + 1) as u32,
        ),
        disk + 1 < count && !include_usb ==> advance_spec(include_usb, disk, count).1 == Action::QueryBusType(
            (disk + 1) as u32,
        ),
{
}

/// In a run over all disks, the outcome of sending the command to a disk is
/// reported (success, or the failure with its reason) and the run goes on to
/// what follows that disk, failure or not.
pub proof fn law_disk_outcome(v: DiskRunView, disk: u32, count: u32, bus: Option<i32>, outcome: Result<(), String>)
    requires
        run_inv(v),
        v.stage == (Stage::Apm { disk, count, bus }),
    ensures
        outcome is Ok ==> next_spec(v, Answer::ApmOutcome(outcome)).1 == seq![Notice::ApmDisabled(disk)],
        outcome matches Err(e) ==> next_spec(v, Answer::ApmOutcome(outcome)).1 == seq![Notice::ApmFailed(disk, e)],
        next_spec(v, Answer::ApmOutcome(outcome)).2 == advance_spec(v.include_usb, disk, count).1,
{
}

/// A USB disk, or an SSD, in a run over all disks is followed by what
/// follows that disk.
pub proof fn law_skipped_disk_moves_on(v: DiskRunView, a: Answer, disk: u32, count: u32)
    requires
        run_inv(v),
        awaits_spec(v.stage, a),
        stage_position(v.stage) == Some((disk, count)),
        a == Answer::BusType(Ok(BUS_TYPE_USB)) || a == Answer::IsSsd(Some(true)),
    ensures
        next_spec(v, a).2 == advance_spec(v.include_usb, disk, count).1,
{
}

/// The answer kind a run waits for is exactly the kind that answers the
/// action it gave last, and a run that gave its result waits for nothing.
pub open spec fn answers_action(act: Action, a: Answer) -> bool {
    match act {
        Action::QueryDiskCount => a is DiskCount,
        Action::QueryBusType(_) => a is BusType,
        Action::QueryIsSsd(_) => a is IsSsd,
        Action::DisableApm(_) => a is ApmOutcome,
        Action::Finish(_) => false,
    }
}

/// After starting and after every step, the run waits for exactly the kind of
/// answer that the action it gave calls for.
pub proof fn law_awaits_the_action(v: DiskRunView, a: Answer, b: Answer)
    requires
        run_inv(v),
        awaits_spec(v.stage, a),
    ensures
        awaits_spec(next_spec(v, a).0.stage, b) == answers_action(next_spec(v, a).2, b),
        awaits_spec(Stage::AwaitCount, b) == answers_action(Action::QueryDiskCount, b),
        next_spec(v, a).2 is Finish <==> next_spec(v, a).0.stage == Stage::Finished,
{
}

impl DiskRun {
    #[verifier::type_invariant]
    closed spec fn well_formed(self) -> bool {
        run_inv(self@)
    }

    /// Starts a run for the given command line: over the single disk it names
    /// with `--index`, or over all disks, passing over USB disks unless
    /// `--usb` is given. The first action is always to count the disks.
    pub fn new(cli: &Cli) -> (out: (DiskRun, Action))
        ensures
            out.0@ == (DiskRunView { target: cli.index, include_usb: cli.usb, stage: Stage::AwaitCount }),
            out.1 == Action::QueryDiskCount,
    {
        (DiskRun { target: cli.index, include_usb: cli.usb, stage: Stage::AwaitCount }, Action::QueryDiskCount)
    }

    /// Whether the run is waiting for an answer of this kind (the kind that
    /// answers the last action it gave).
    pub fn awaits(&self, answer: &Answer) -> (b: bool)
        ensures
            b == awaits_spec(self@.stage, *answer),
    {
        match (&self.stage, answer) {
            (Stage::AwaitCount, Answer::DiskCount(_)) => true,
            (Stage::TargetSsd { .. }, Answer::IsSsd(_)) => true,
            (Stage::TargetApm { .. }, Answer::ApmOutcome(_)) => true,
            (Stage::Bus { .. }, Answer::BusType(_)) => true,
            (Stage::Ssd { .. }, Answer::IsSsd(_)) => true,
            (Stage::Apm { .. }, Answer::ApmOutcome(_)) => true,
            _ => false,
        }
    }

    /// Whether the run is over.
    pub fn is_finished(&self) -> (b: bool)
        ensures
            b == (self@.stage == Stage::Finished),
    {
        match self.stage {
            Stage::Finished => true,
            _ => false,
        }
    }

    fn visit(&self, disk: u32, count: u32) -> (out: (Stage, Action))
        ensures
            out == visit_spec(self.include_usb, disk, count),
    {
        if self.include_usb {
            (Stage::Ssd { disk, count, bus: None }, Action::QueryIsSsd(disk))
        } else {
            (Stage::Bus { disk, count }, Action::QueryBusType(disk))
        }
    }

    fn advance(&self, disk: u32, count: u32) -> (out: (Stage, Action))
        requires
            disk < count,
        ensures
            out == advance_spec(self.include_usb, disk, count),
    {
        if disk + 1 >= count {
            (Stage::Finished, Action::Finish(Ok(())))
        } else {
            self.visit(disk + 1, count)
        }
    }

    /// Takes the answer to the last action: moves the run on, and gives the
    /// notices to write, in order, and the next action.
    pub fn step(&mut self, answer: Answer) -> (out: (Vec<Notice>, Action))
        requires
            awaits_spec(old(self)@.stage, answer),
        ensures
            final(self)@ == next_spec(old(self)@, answer).0,
            out.0@ == next_spec(old(self)@, answer).1,
            out.1 == next_spec(old(self)@, answer).2,
    {
        proof {
            use_type_invariant(&*self);
        }
        let mut notices: Vec<Notice> = Vec::new();
        let (stage, action) = match (self.stage, answer) {
            (Stage::AwaitCount, Answer::DiskCount(Err(e))) => {
                (Stage::Finished, Action::Finish(Err(RunError::DiskCount(e))))
            },
            (Stage::AwaitCount, Answer::DiskCount(Ok(count))) => {
                notices.push(Notice::TotalDisks(count));
                match self.target {
                    Some(index) => {
                        if index >= count {
                            let max = if count == 0 { u32::MAX } else { count - 1 };
                            notices.push(Notice::IndexOutOfRange { index, max });
                            (Stage::Finished, Action::Finish(Err(RunError::IndexOutOfRange { index, max })))
                        } else {
                            (Stage::TargetSsd { disk: index }, Action::QueryIsSsd(index))
                        }
                    },
                    None => {
                        if count == 0 {
                            (Stage::Finished, Action::Finish(Ok(())))
                        } else {
                            self.visit(0, count)
                        }
                    },
                }
            },
            (Stage::TargetSsd { disk }, Answer::IsSsd(ssd)) => {
                if ssd == Some(true) {
                    notices.push(Notice::TargetIsSsd(disk));
                    (Stage::Finished, Action::Finish(Err(RunError::TargetIsSsd(disk))))
                } else {
                    (Stage::TargetApm { disk }, Action::DisableApm(disk))
                }
            },
            (Stage::TargetApm { disk }, Answer::ApmOutcome(outcome)) => {
                let (notice, result) = disable_apm_for_disk(disk, outcome);
                notices.push(notice);
                let finish = match result {
                    Ok(()) => Ok(()),
                    Err(e) => Err(RunError::DisableApm(e)),
                };
                (Stage::Finished, Action::Finish(finish))
            },
            (Stage::Bus { disk, count }, Answer::BusType(Err(e))) => {
                (Stage::Finished, Action::Finish(Err(RunError::BusType { disk, cause: e })))
            },
            (Stage::Bus { disk, count }, Answer::BusType(Ok(bus))) => {
                if bus == BUS_TYPE_USB {
                    notices.push(Notice::SkipUsb(disk));
                    self.advance(disk, count)
                } else {
                    (Stage::Ssd { disk, count, bus: Some(bus) }, Action::QueryIsSsd(disk))
                }
            },
            (Stage::Ssd { disk, count, bus }, Answer::IsSsd(ssd)) => {
                if ssd == Some(true) {
                    notices.push(Notice::SkipSsd(disk));
                    self.advance(disk, count)
                } else {
                    (Stage::Apm { disk, count, bus }, Action::DisableApm(disk))
                }
            },
            (Stage::Apm { disk, count, bus }, Answer::ApmOutcome(outcome)) => {
                let (notice, _result) = disable_apm_for_disk(disk, outcome);
                notices.push(notice);
                self.advance(disk, count)
            },
            _ => (self.stage, Action::QueryDiskCount),
        };
        self.stage = stage;
        (notices, action)
    }
}

} // verus!
