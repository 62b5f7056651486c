//! The panel of the program: the database, listing, exclusion file and
//! output directory it holds, the run switches, the message it shows, and
//! what each button, box and background result does to it.
//!
//! `Panel::update` takes a panel message and gives the outside work it
//! needs (a file dialog, a look at the disk, the database); each answer
//! goes to `Panel::resume`, which gives the next piece of work, until an
//! action that ends the handling (`Done`, `UseDatabase`, `StartRun`,
//! `StartProgress`, `Stop`).
use vstd::prelude::*;
use crate::bklist::{bk_scan, scan_bklist, BkScan};
use crate::events::ListFile;
use crate::execrun::{ExecParams, Execx};
use crate::press::PressParams;
use crate::progstart::{read_progress, reading_of, Error, ProgressReading, Progstart};
use crate::reconcile::texts;
use crate::text::{format_i64, join2, join3, join6, opt_text, signed_decimal};

verus! {

/// Test run or update run.
#[derive(Clone, Copy, PartialEq, Eq, Structural, Debug)]
pub enum RunChoice {
    TST,
    UPD,
}

impl Default for RunChoice {
    fn default() -> (r: Self)
        ensures
            r == RunChoice::TST,
    {
        RunChoice::TST
    }
}

/// Whether the hour of two time stamps may differ (`DIF`) or must be equal.
#[derive(Clone, Copy, PartialEq, Eq, Structural, Debug)]
pub enum HourChoice {
    DIF,
    EQL,
}

impl Default for HourChoice {
    fn default() -> (r: Self)
        ensures
            r == HourChoice::EQL,
    {
        HourChoice::EQL
    }
}

/// Whether the date of two time stamps may differ (`DIF`) or must be equal.
#[derive(Clone, Copy, PartialEq, Eq, Structural, Debug)]
pub enum DateChoice {
    DIF,
    EQL,
}

impl Default for DateChoice {
    fn default() -> (r: Self)
        ensures
            r == DateChoice::EQL,
    {
        DateChoice::EQL
    }
}

/// The color of the panel's message: all well, trouble, or progress.
#[derive(Clone, Copy, PartialEq, Eq, Structural, Debug)]
pub enum MessColor {
    Green,
    Red,
    Blue,
}

/// The progress bar: empty, full, or `done / total` of it.
#[derive(Clone, Copy, PartialEq, Eq, Structural, Debug)]
pub enum ProgressValue {
    Zero,
    Full,
    Ratio(i32, i32),
}

/// Why the program stops while handling a panel message.
#[derive(Clone, Copy, PartialEq, Eq, Structural, Debug)]
pub enum PanelFault {
    /// The first line of the chosen listing has fewer than five fields.
    BklistFirstLineShort,
    /// The listing path has no parent directory.
    NoParentDirectory,
}

/// The answer the panel waits for, with what it keeps until then.
pub enum Pending {
    Idle,
    BkExists,
    BkDbExists,
    BkInput,
    BkList(String),
    DbExists,
    DbBkExists,
    DbInput,
    DbOpen(String),
    ExExists,
    ExBkExists,
    ExInput,
    OutExists,
    OutBkExists,
    OutDir,
    Press,
    Drain,
}

/// The panel.
pub struct Panel {
    pub db_value: String,
    pub ref_value: String,
    pub mess_color: MessColor,
    pub msg_value: String,
    pub runchoice_value: RunChoice,
    pub hourchoice_value: HourChoice,
    pub datechoice_value: DateChoice,
    pub rows_num: u64,
    pub bk_value: String,
    pub exclude_value: String,
    pub outdir_value: String,
    pub haveexclude: bool,
    pub do_progress: bool,
    pub progval: ProgressValue,
    pub pending: Pending,
}

/// What the panel is told.
pub enum Message {
    DBPressed,
    BKPressed,
    EXPressed,
    OutdirPressed,
    ExecPressed,
    CheckExclude(bool),
    RunRadioSelected(RunChoice),
    HourRadioSelected(HourChoice),
    DateRadioSelected(DateChoice),
    ExecxFound(Result<Execx, Error>),
    ProgressPressed,
    ProgRtn(Result<Progstart, Error>),
}

/// An answer to a `PanelAction`.
pub enum PanelReply {
    /// Whether the path exists.
    Exists(bool),
    /// The outcome of a file or directory dialog.
    Chosen { errcode: u32, errstr: String, path: String },
    Listing(ListFile),
    /// The database check's error text, `None` if fine.
    DbChecked(Option<String>),
    /// The outcome of the pre-run checks.
    Pressed { errcode: u32, errstring: String },
    /// The last progress message waiting, if any.
    Drained(Option<String>),
}

/// The outside work the panel asks for.
pub enum PanelAction {
    /// Nothing more to do.
    Done,
    /// Whether the path exists (`Exists`).
    CheckPath(String),
    /// The file dialog, starting from the path (`Chosen`).
    ChooseFile(String),
    /// The directory dialog, starting from the path (`Chosen`).
    ChooseDir(String),
    /// If the listing exists, its lines (`Listing`).
    ReadListing(String),
    /// Open the database (stopping the program if that fails) and check it
    /// (`DbChecked`).
    OpenDatabase(String),
    /// Keep the database just opened as the panel's database; then done.
    UseDatabase,
    /// The pre-run checks (`Pressed`).
    RunChecks(PressParams),
    /// Start the run in the background; then done.
    StartRun(ExecParams),
    /// Print `say` if there is one, and start a pause of `secs` seconds in
    /// the background; then done.
    StartProgress { secs: u64, say: Option<String> },
    /// Take the progress messages waiting (`Drained`).
    DrainProgress,
    /// The program stops.
    Stop(PanelFault),
}

// ---------------------------------------------------------------------
// The mathematical model
// ---------------------------------------------------------------------

pub enum PendingModel {
    Idle,
    BkExists,
    BkDbExists,
    BkInput,
    BkList(Seq<char>),
    DbExists,
    DbBkExists,
    DbInput,
    DbOpen(Seq<char>),
    ExExists,
    ExBkExists,
    ExInput,
    OutExists,
    OutBkExists,
    OutDir,
    Press,
    Drain,
}

pub struct PanelModel {
    pub db_value: Seq<char>,
    pub ref_value: Seq<char>,
    pub mess_color: MessColor,
    pub msg_value: Seq<char>,
    pub runchoice_value: RunChoice,
    pub hourchoice_value: HourChoice,
    pub datechoice_value: DateChoice,
    pub rows_num: u64,
    pub bk_value: Seq<char>,
    pub exclude_value: Seq<char>,
    pub outdir_value: Seq<char>,
    pub haveexclude: bool,
    pub do_progress: bool,
    pub progval: ProgressValue,
    pub pending: PendingModel,
}

/// Parameters of the pre-run checks: listing, rows, output directory,
/// exclusion file, reference name.
pub type PressModel = (Seq<char>, u64, Seq<char>, Seq<char>, Seq<char>);

/// Parameters of a run: database, listing, reference name, rows, output
/// directory, exclusion file, test run, hour must be equal, date must be equal.
pub type RunModel = (Seq<char>, Seq<char>, Seq<char>, u64, Seq<char>, Seq<char>, bool, bool, bool);

pub enum ActionModel {
    Done,
    CheckPath(Seq<char>),
    ChooseFile(Seq<char>),
    ChooseDir(Seq<char>),
    ReadListing(Seq<char>),
    OpenDatabase(Seq<char>),
    UseDatabase,
    RunChecks(PressModel),
    StartRun(RunModel),
    StartProgress(u64, Option<Seq<char>>),
    DrainProgress,
    Stop(PanelFault),
}

impl View for Pending {
    type V = PendingModel;

    open spec fn view(&self) -> PendingModel {
        match self {
            Pending::Idle => PendingModel::Idle,
            Pending::BkExists => PendingModel::BkExists,
            Pending::BkDbExists => PendingModel::BkDbExists,
            Pending::BkInput => PendingModel::BkInput,
            Pending::BkList(p) => PendingModel::BkList(p@),
            Pending::DbExists => PendingModel::DbExists,
            Pending::DbBkExists => PendingModel::DbBkExists,
            Pending::DbInput => PendingModel::DbInput,
            Pending::DbOpen(p) => PendingModel::DbOpen(p@),
            Pending::ExExists => PendingModel::ExExists,
            Pending::ExBkExists => PendingModel::ExBkExists,
            Pending::ExInput => PendingModel::ExInput,
            Pending::OutExists => PendingModel::OutExists,
            Pending::OutBkExists => PendingModel::OutBkExists,
            Pending::OutDir => PendingModel::OutDir,
            Pending::Press => PendingModel::Press,
            Pending::Drain => PendingModel::Drain,
        }
    }
}

impl View for Panel {
    type V = PanelModel;

    open spec fn view(&self) -> PanelModel {
        PanelModel {
            db_value: self.db_value@,
            ref_value: self.ref_value@,
            mess_color: self.mess_color,
            msg_value: self.msg_value@,
            runchoice_value: self.runchoice_value,
            hourchoice_value: self.hourchoice_value,
            datechoice_value: self.datechoice_value,
            rows_num: self.rows_num,
            bk_value: self.bk_value@,
            exclude_value: self.exclude_value@,
            outdir_value: self.outdir_value@,
            haveexclude: self.haveexclude,
            do_progress: self.do_progress,
            progval: self.progval,
            pending: self.pending@,
        }
    }
}


impl View for PanelAction {
    type V = ActionModel;

    open spec fn view(&self) -> ActionModel {
        match self {
            PanelAction::Done => ActionModel::Done,
            PanelAction::CheckPath(p) => ActionModel::CheckPath(p@),
            PanelAction::ChooseFile(p) => ActionModel::ChooseFile(p@),
            PanelAction::ChooseDir(p) => ActionModel::ChooseDir(p@),
            PanelAction::ReadListing(p) => ActionModel::ReadListing(p@),
            PanelAction::OpenDatabase(p) => ActionModel::OpenDatabase(p@),
            PanelAction::UseDatabase => ActionModel::UseDatabase,
            PanelAction::RunChecks(p) => ActionModel::RunChecks(
                (p.hd_value@, p.rows_num, p.outdir@, p.excludefile@, p.ref_value@),
            ),
            PanelAction::StartRun(p) => ActionModel::StartRun(
                (
                    p.db_value@,
                    p.bk_value@,
                    p.ref_value@,
                    p.rows_num,
                    p.outdir@,
                    p.excludefile@,
                    p.tstrun,
                    p.hourmust,
                    p.datemust,
                ),
            ),
            PanelAction::StartProgress { secs, say } => ActionModel::StartProgress(*secs, opt_text(*say)),
            PanelAction::DrainProgress => ActionModel::DrainProgress,
            PanelAction::Stop(f) => ActionModel::Stop(*f),
        }
    }
}

// ---------------------------------------------------------------------
// Specification
// ---------------------------------------------------------------------

/// The parent directory of a path, as `std::path::Path::parent` gives it.
pub uninterp spec fn path_parent(p: Seq<char>) -> Option<Seq<char>>;

/// The panel as it starts.
pub open spec fn initial_model() -> PanelModel {
    PanelModel {
        db_value: "--"@,
        ref_value: "--"@,
        mess_color: MessColor::Green,
        msg_value: "no message"@,
        runchoice_value: RunChoice::TST,
        hourchoice_value: HourChoice::EQL,
        datechoice_value: DateChoice::EQL,
        rows_num: 0,
        bk_value: "--"@,
        exclude_value: "--"@,
        outdir_value: "--"@,
        haveexclude: false,
        do_progress: false,
        progval: ProgressValue::Zero,
        pending: PendingModel::Idle,
    }
}

/// `m` back to a test run with hour and date that must be equal, waiting
/// for `next`.
pub open spec fn reset_to(m: PanelModel, next: PendingModel) -> PanelModel {
    PanelModel {
        runchoice_value: RunChoice::TST,
        hourchoice_value: HourChoice::EQL,
        datechoice_value: DateChoice::EQL,
        pending: next,
        ..m
    }
}

/// `m` with a message in a color, waiting for nothing.
pub open spec fn told(m: PanelModel, msg: Seq<char>, color: MessColor) -> PanelModel {
    PanelModel { msg_value: msg, mess_color: color, pending: PendingModel::Idle, ..m }
}

pub open spec fn waiting(m: PanelModel, next: PendingModel) -> PanelModel {
    PanelModel { pending: next, ..m }
}

pub open spec fn press_model(m: PanelModel) -> PressModel {
    (m.bk_value, m.rows_num, m.outdir_value, m.exclude_value, m.ref_value)
}

pub open spec fn run_model(m: PanelModel) -> RunModel {
    (
        m.db_value,
        m.bk_value,
        m.ref_value,
        m.rows_num,
        m.outdir_value,
        m.exclude_value,
        m.runchoice_value == RunChoice::TST,
        m.hourchoice_value == HourChoice::EQL,
        m.datechoice_value == DateChoice::EQL,
    )
}

/// What the panel does on message `msg`: its next state and action.
pub open spec fn message_step(pre: PanelModel, msg: Message) -> (PanelModel, ActionModel) {
    let idle = waiting(pre, PendingModel::Idle);
    match msg {
        Message::BKPressed => (
            reset_to(pre, PendingModel::BkExists),
            ActionModel::CheckPath(pre.bk_value),
        ),
        Message::DBPressed => (
            reset_to(pre, PendingModel::DbExists),
            ActionModel::CheckPath(pre.db_value),
        ),
        Message::EXPressed => if !pre.haveexclude {
            (
                told(pre, "The checkbox is not check for having exclude file"@, MessColor::Red),
                ActionModel::Done,
            )
        } else {
            (reset_to(pre, PendingModel::ExExists), ActionModel::CheckPath(pre.exclude_value))
        },
        Message::OutdirPressed => (
            reset_to(pre, PendingModel::OutExists),
            ActionModel::CheckPath(pre.outdir_value),
        ),
        Message::ExecPressed => if pre.haveexclude && pre.exclude_value == "--"@ {
            (
                told(pre, "Have exclude file check box check, but no exclude file"@, MessColor::Red),
                ActionModel::Done,
            )
        } else {
            (waiting(pre, PendingModel::Press), ActionModel::RunChecks(press_model(pre)))
        },
        Message::CheckExclude(completed) => (
            PanelModel {
                exclude_value: if !completed {
                    "--"@
                } else {
                    pre.exclude_value
                },
                haveexclude: completed,
                ..idle
            },
            ActionModel::Done,
        ),
        Message::RunRadioSelected(x) => (
            PanelModel {
                runchoice_value: x,
                msg_value: if x == RunChoice::TST {
                    "choice tst selected"@
                } else {
                    "choice update selected"@
                },
                ..idle
            },
            ActionModel::Done,
        ),
        Message::HourRadioSelected(x) => (
            PanelModel {
                hourchoice_value: x,
                msg_value: if x == HourChoice::DIF {
                    "choice hour different selected"@
                } else {
                    "choice hour equal selected"@
                },
                ..idle
            },
            ActionModel::Done,
        ),
        Message::DateRadioSelected(x) => (
            PanelModel {
                datechoice_value: x,
                msg_value: if x == DateChoice::DIF {
                    "choice date different selected"@
                } else {
                    "choice date equal selected"@
                },
                ..idle
            },
            ActionModel::Done,
        ),
        Message::ExecxFound(Ok(exx)) => (
            PanelModel {
                msg_value: exx.errval@,
                progval: ProgressValue::Full,
                do_progress: false,
                mess_color: if exx.errcd == 0 {
                    MessColor::Green
                } else {
                    MessColor::Red
                },
                ..idle
            },
            ActionModel::Done,
        ),
        Message::ExecxFound(Err(_)) => (
            PanelModel {
                do_progress: false,
                ..told(pre, "error in Execx execit routine"@, MessColor::Red)
            },
            ActionModel::Done,
        ),
        Message::ProgressPressed => (
            PanelModel { do_progress: true, ..idle },
            ActionModel::StartProgress(0, None),
        ),
        Message::ProgRtn(Ok(_)) => if pre.do_progress {
            (waiting(pre, PendingModel::Drain), ActionModel::DrainProgress)
        } else {
            (idle, ActionModel::Done)
        },
        Message::ProgRtn(Err(_)) => (
            told(pre, "error in Progstart::pstart routine"@, MessColor::Red),
            ActionModel::Done,
        ),
    }
}

/// The panel after reading the listing `lines` chosen as `path`.
pub open spec fn listing_step(pre: PanelModel, path: Seq<char>, lines: Seq<Seq<char>>, failed: bool) -> (PanelModel, ActionModel) {
    let base = PanelModel {
        mess_color: MessColor::Green,
        bk_value: path,
        rows_num: 0,
        pending: PendingModel::Idle,
        ..pre
    };
    let s = bk_scan(lines, failed, pre.ref_value);
    if s.0 == 1 {
        (base, ActionModel::Stop(PanelFault::BklistFirstLineShort))
    } else if s.0 == 2 {
        (
            told(
                PanelModel { ref_value: s.1, ..base },
                "bklist does not have 6 items per line separated by |"@,
                MessColor::Red,
            ),
            ActionModel::Done,
        )
    } else if s.0 == 3 {
        (
            told(
                PanelModel { ref_value: s.1, ..base },
                "bklist has more than 1 reference name "@ + s.1 + " and "@ + s.2,
                MessColor::Red,
            ),
            ActionModel::Done,
        )
    } else if s.0 == 4 {
        (
            told(PanelModel { ref_value: s.1, ..base }, "error reading bklist "@, MessColor::Red),
            ActionModel::Done,
        )
    } else {
        (
            told(
                PanelModel { ref_value: s.1, rows_num: lines.len() as u64, ..base },
                "got bklist with reference name of "@ + s.1
                    + " and retrieved its number of rows"@,
                MessColor::Green,
            ),
            ActionModel::Done,
        )
    }
}

/// The panel after a progress message `m`.
pub open spec fn progress_step(pre: PanelModel, m: Seq<char>) -> (PanelModel, ActionModel) {
    let r = reading_of(m);
    if r.0 == 0 {
        (
            PanelModel {
                progval: ProgressValue::Ratio(r.1, r.2),
                ..told(
                    pre,
                    (if pre.runchoice_value == RunChoice::TST {
                        "Test run progress: "@
                    } else {
                        "Update run progress: "@
                    }) + signed_decimal(r.1 as int) + " of "@ + signed_decimal(r.2 as int) + "  "@
                        + r.3,
                    MessColor::Blue,
                )
            },
            ActionModel::StartProgress(5, None),
        )
    } else if r.0 == 1 {
        (
            waiting(pre, PendingModel::Idle),
            ActionModel::StartProgress(5, Some("progress numeric not numeric: "@ + m)),
        )
    } else {
        (
            waiting(pre, PendingModel::Idle),
            ActionModel::StartProgress(5, Some("message not progress: "@ + m)),
        )
    }
}

/// The panel after a dialog answered `(errcode, errstr, path)`, where
/// `keep` stores the chosen path.
pub open spec fn chosen_step(pre: PanelModel, errcode: u32, errstr: Seq<char>, kept: PanelModel) -> (PanelModel, ActionModel) {
    if errcode == 0 {
        (told(kept, errstr, MessColor::Green), ActionModel::Done)
    } else {
        (told(pre, errstr, MessColor::Red), ActionModel::Done)
    }
}

/// What the panel does with the answer `reply`: its next state and action.
pub open spec fn reply_step(pre: PanelModel, reply: PanelReply) -> (PanelModel, ActionModel) {
    match (pre.pending, reply) {
        (PendingModel::BkExists, PanelReply::Exists(true)) => (
            waiting(pre, PendingModel::BkInput),
            ActionModel::ChooseFile(pre.bk_value),
        ),
        (PendingModel::BkExists, PanelReply::Exists(false)) => (
            waiting(pre, PendingModel::BkDbExists),
            ActionModel::CheckPath(pre.db_value),
        ),
        (PendingModel::BkDbExists, PanelReply::Exists(b)) => (
            waiting(pre, PendingModel::BkInput),
            ActionModel::ChooseFile(
                if b {
                    pre.db_value
                } else {
                    pre.bk_value
                },
            ),
        ),
        (PendingModel::BkInput, PanelReply::Chosen { errcode, errstr, path }) => if errcode == 0 {
            (
                PanelModel {
                    msg_value: errstr@,
                    pending: PendingModel::BkList(path@),
                    ..pre
                },
                ActionModel::ReadListing(path@),
            )
        } else {
            (told(pre, errstr@, MessColor::Red), ActionModel::Done)
        },
        (PendingModel::BkList(path), PanelReply::Listing(ListFile::Missing)) => (
            told(pre, "bklist file does not exist: "@ + path, MessColor::Red),
            ActionModel::Done,
        ),
        (PendingModel::BkList(path), PanelReply::Listing(ListFile::Read(lines, failure))) => {
            listing_step(pre, path, texts(lines@), failure is Some)
        },
        (PendingModel::DbExists, PanelReply::Exists(true)) => (
            waiting(pre, PendingModel::DbInput),
            ActionModel::ChooseFile(pre.db_value),
        ),
        (PendingModel::DbExists, PanelReply::Exists(false)) => (
            waiting(pre, PendingModel::DbBkExists),
            ActionModel::CheckPath(pre.bk_value),
        ),
        (PendingModel::DbBkExists, PanelReply::Exists(b)) => (
            waiting(pre, PendingModel::DbInput),
            ActionModel::ChooseFile(
                if b {
                    pre.bk_value
                } else {
                    pre.db_value
                },
            ),
        ),
        (PendingModel::DbInput, PanelReply::Chosen { errcode, errstr, path }) => if errcode == 0 {
            (
                PanelModel {
                    msg_value: errstr@,
                    pending: PendingModel::DbOpen(path@),
                    ..pre
                },
                ActionModel::OpenDatabase(path@),
            )
        } else {
            (told(pre, errstr@, MessColor::Red), ActionModel::Done)
        },
        (PendingModel::DbOpen(path), PanelReply::DbChecked(Some(e))) => (
            told(pre, "data base error: "@ + e@, MessColor::Red),
            ActionModel::Done,
        ),
        (PendingModel::DbOpen(path), PanelReply::DbChecked(None)) => (
            PanelModel {
                db_value: path,
                mess_color: MessColor::Green,
                pending: PendingModel::Idle,
                ..pre
            },
            ActionModel::UseDatabase,
        ),
        (PendingModel::ExExists, PanelReply::Exists(true)) => (
            waiting(pre, PendingModel::ExInput),
            ActionModel::ChooseFile(pre.exclude_value),
        ),
        (PendingModel::ExExists, PanelReply::Exists(false)) => (
            waiting(pre, PendingModel::ExBkExists),
            ActionModel::CheckPath(pre.bk_value),
        ),
        (PendingModel::ExBkExists, PanelReply::Exists(b)) => (
            waiting(pre, PendingModel::ExInput),
            ActionModel::ChooseFile(
                if b {
                    pre.bk_value
                } else {
                    pre.exclude_value
                },
            ),
        ),
        (PendingModel::ExInput, PanelReply::Chosen { errcode, errstr, path }) => chosen_step(
            pre,
            errcode,
            errstr@,
            PanelModel { exclude_value: path@, ..pre },
        ),
        (PendingModel::OutExists, PanelReply::Exists(true)) => (
            waiting(pre, PendingModel::OutDir),
            ActionModel::ChooseDir(pre.outdir_value),
        ),
        (PendingModel::OutExists, PanelReply::Exists(false)) => (
            waiting(pre, PendingModel::OutBkExists),
            ActionModel::CheckPath(pre.bk_value),
        ),
        (PendingModel::OutBkExists, PanelReply::Exists(false)) => (
            waiting(pre, PendingModel::OutDir),
            ActionModel::ChooseDir(pre.outdir_value),
        ),
        (PendingModel::OutBkExists, PanelReply::Exists(true)) => match path_parent(pre.bk_value) {
            Some(d) => (waiting(pre, PendingModel::OutDir), ActionModel::ChooseDir(d)),
            None => (
                waiting(pre, PendingModel::Idle),
                ActionModel::Stop(PanelFault::NoParentDirectory),
            ),
        },
        (PendingModel::OutDir, PanelReply::Chosen { errcode, errstr, path }) => chosen_step(
            pre,
            errcode,
            errstr@,
            PanelModel { outdir_value: path@, ..pre },
        ),
        (PendingModel::Press, PanelReply::Pressed { errcode, errstring }) => if errcode == 0 {
            (told(pre, errstring@, MessColor::Green), ActionModel::StartRun(run_model(pre)))
        } else {
            (told(pre, errstring@, MessColor::Red), ActionModel::Done)
        },
        (PendingModel::Drain, PanelReply::Drained(None)) => (
            waiting(pre, PendingModel::Idle),
            ActionModel::StartProgress(5, None),
        ),
        (PendingModel::Drain, PanelReply::Drained(Some(m))) => progress_step(pre, m@),
        _ => (pre, ActionModel::Done),
    }
}

// ---------------------------------------------------------------------
// Implementation
// ---------------------------------------------------------------------

/// The parent directory of the path `p`.
///
/// Calls `std::path::Path::parent`. The contract claims only that the
/// result is a function of `p` (`path_parent`); which prefix of `p` it is
/// (the rules on roots, prefixes and repeated separators) is left unsaid.
#[verifier::external_body]
fn parent_dir(p: &str) -> (r: Option<String>)
    ensures
        opt_text(r) == path_parent(p@),
{
    match std::path::Path::new(p).parent() {
        Some(d) => Some(String::from(d.to_str().unwrap())),
        None => None,
    }
}

impl Panel {
    /// The panel as the program starts.
    pub fn new() -> (p: Panel)
        ensures
            p@ == initial_model(),
    {
        Panel {
            db_value: String::from_str("--"),
            ref_value: String::from_str("--"),
            mess_color: MessColor::Green,
            msg_value: String::from_str("no message"),
            runchoice_value: RunChoice::TST,
            hourchoice_value: HourChoice::EQL,
            datechoice_value: DateChoice::EQL,
            rows_num: 0,
            bk_value: String::from_str("--"),
            exclude_value: String::from_str("--"),
            outdir_value: String::from_str("--"),
            haveexclude: false,
            do_progress: false,
            progval: ProgressValue::Zero,
            pending: Pending::Idle,
        }
    }

    fn reset(&mut self, next: Pending)
        ensures
            final(self)@ == reset_to(old(self)@, next@),
    {
        self.runchoice_value = RunChoice::TST;
        self.hourchoice_value = HourChoice::EQL;
        self.datechoice_value = DateChoice::EQL;
        self.pending = next;
    }

    fn tell(&mut self, msg: String, color: MessColor)
        ensures
            final(self)@ == told(old(self)@, msg@, color),
    {
        self.msg_value = msg;
        self.mess_color = color;
        self.pending = Pending::Idle;
    }

    fn press_params(&self) -> (p: PressParams)
        ensures
            (p.hd_value@, p.rows_num, p.outdir@, p.excludefile@, p.ref_value@) == press_model(
                self@,
            ),
    {
        PressParams {
            hd_value: self.bk_value.clone(),
            rows_num: self.rows_num,
            outdir: self.outdir_value.clone(),
            excludefile: self.exclude_value.clone(),
            ref_value: self.ref_value.clone(),
        }
    }

    fn run_params(&self) -> (p: ExecParams)
        ensures
            (
                p.db_value@,
                p.bk_value@,
                p.ref_value@,
                p.rows_num,
                p.outdir@,
                p.excludefile@,
                p.tstrun,
                p.hourmust,
                p.datemust,
            ) == run_model(self@),
    {
        ExecParams {
            db_value: self.db_value.clone(),
            bk_value: self.bk_value.clone(),
            ref_value: self.ref_value.clone(),
            rows_num: self.rows_num,
            outdir: self.outdir_value.clone(),
            excludefile: self.exclude_value.clone(),
            tstrun: self.runchoice_value == RunChoice::TST,
            hourmust: self.hourchoice_value == HourChoice::EQL,
            datemust: self.datechoice_value == DateChoice::EQL,
        }
    }

    /// Handles a panel message; gives the first outside work it needs.
    pub fn update(&mut self, msg: Message) -> (act: PanelAction)
        ensures
            (final(self)@, act@) == message_step(old(self)@, msg),
    {
        match msg {
            Message::BKPressed => {
                self.reset(Pending::BkExists);
                PanelAction::CheckPath(self.bk_value.clone())
            },
            Message::DBPressed => {
                self.reset(Pending::DbExists);
                PanelAction::CheckPath(self.db_value.clone())
            },
            Message::EXPressed => {
                if !self.haveexclude {
                    self.tell(
                        String::from_str("The checkbox is not check for having exclude file"),
                        MessColor::Red,
                    );
                    PanelAction::Done
                } else {
                    self.reset(Pending::ExExists);
                    PanelAction::CheckPath(self.exclude_value.clone())
                }
            },
            Message::OutdirPressed => {
                self.reset(Pending::OutExists);
                PanelAction::CheckPath(self.outdir_value.clone())
            },
            Message::ExecPressed => {
                let dashes = String::from_str("--");
                if self.haveexclude && self.exclude_value.eq(&dashes) {
                    self.tell(
                        String::from_str("Have exclude file check box check, but no exclude file"),
                        MessColor::Red,
                    );
                    PanelAction::Done
                } else {
                    self.pending = Pending::Press;
                    PanelAction::RunChecks(self.press_params())
                }
            },
            Message::CheckExclude(completed) => {
                if !completed {
                    self.exclude_value = String::from_str("--");
                }
                self.haveexclude = completed;
                self.pending = Pending::Idle;
                PanelAction::Done
            },
            Message::RunRadioSelected(x) => {
                let s = match x {
                    RunChoice::TST => String::from_str("choice tst selected"),
                    RunChoice::UPD => String::from_str("choice update selected"),
                };
                self.runchoice_value = x;
                self.msg_value = s;
                self.pending = Pending::Idle;
                PanelAction::Done
            },
            Message::HourRadioSelected(x) => {
                let s = match x {
                    HourChoice::DIF => String::from_str("choice hour different selected"),
                    HourChoice::EQL => String::from_str("choice hour equal selected"),
                };
                self.hourchoice_value = x;
                self.msg_value = s;
                self.pending = Pending::Idle;
                PanelAction::Done
            },
            Message::DateRadioSelected(x) => {
                let s = match x {
                    DateChoice::DIF => String::from_str("choice date different selected"),
                    DateChoice::EQL => String::from_str("choice date equal selected"),
                };
                self.datechoice_value = x;
                self.msg_value = s;
                self.pending = Pending::Idle;
                PanelAction::Done
            },
            Message::ExecxFound(Ok(exx)) => {
                self.msg_value = exx.errval;
                self.progval = ProgressValue::Full;
                self.do_progress = false;
                if exx.errcd == 0 {
                    self.mess_color = MessColor::Green;
                } else {
                    self.mess_color = MessColor::Red;
                }
                self.pending = Pending::Idle;
                PanelAction::Done
            },
            Message::ExecxFound(Err(_)) => {
                self.tell(String::from_str("error in Execx execit routine"), MessColor::Red);
                self.do_progress = false;
                PanelAction::Done
            },
            Message::ProgressPressed => {
                self.do_progress = true;
                self.pending = Pending::Idle;
                PanelAction::StartProgress { secs: 0, say: None }
            },
            Message::ProgRtn(Ok(_)) => {
                if self.do_progress {
                    self.pending = Pending::Drain;
                    PanelAction::DrainProgress
                } else {
                    self.pending = Pending::Idle;
                    PanelAction::Done
                }
            },
            Message::ProgRtn(Err(_)) => {
                self.tell(String::from_str("error in Progstart::pstart routine"), MessColor::Red);
                PanelAction::Done
            },
        }
    }

    fn read_listing(&mut self, path: String, lines: Vec<String>, failed: bool) -> (act: PanelAction)
        ensures
            (final(self)@, act@) == listing_step(old(self)@, path@, texts(lines@), failed),
    {
        let scan = scan_bklist(&lines, failed, &self.ref_value);
        self.mess_color = MessColor::Green;
        self.bk_value = path;
        self.rows_num = 0;
        self.pending = Pending::Idle;
        match scan {
            BkScan::Short => PanelAction::Stop(PanelFault::BklistFirstLineShort),
            BkScan::NotSix { reference } => {
                self.ref_value = reference;
                self.tell(
                    String::from_str("bklist does not have 6 items per line separated by |"),
                    MessColor::Red,
                );
                PanelAction::Done
            },
            BkScan::ReadError { reference } => {
                self.ref_value = reference;
                self.tell(String::from_str("error reading bklist "), MessColor::Red);
                PanelAction::Done
            },
            BkScan::Counted { reference } => {
                self.ref_value = reference;
                self.rows_num = lines.len() as u64;
                let msg = join3(
                    "got bklist with reference name of ",
                    self.ref_value.as_str(),
                    " and retrieved its number of rows",
                );
                self.tell(msg, MessColor::Green);
                PanelAction::Done
            },
        }
    }

    fn progress(&mut self, m: String) -> (act: PanelAction)
        ensures
            (final(self)@, act@) == progress_step(old(self)@, m@),
    {
        match read_progress(&m) {
            ProgressReading::Step { done, total, text } => {
                let head = if self.runchoice_value == RunChoice::TST {
                    "Test run progress: "
                } else {
                    "Update run progress: "
                };
                let d = format_i64(done as i64);
                let t = format_i64(total as i64);
                let msg = join6(head, d.as_str(), " of ", t.as_str(), "  ", text.as_str());
                self.progval = ProgressValue::Ratio(done, total);
                self.tell(msg, MessColor::Blue);
                PanelAction::StartProgress { secs: 5, say: None }
            },
            ProgressReading::NotNumeric => {
                self.pending = Pending::Idle;
                PanelAction::StartProgress {
                    secs: 5,
                    say: Some(join2("progress numeric not numeric: ", m.as_str())),
                }
            },
            ProgressReading::NotProgress => {
                self.pending = Pending::Idle;
                PanelAction::StartProgress {
                    secs: 5,
                    say: Some(join2("message not progress: ", m.as_str())),
                }
            },
        }
    }

    /// Takes the answer to the last action; gives the next action.
    #[verifier::rlimit(60)]
    #[verifier::spinoff_prover]
    pub fn resume(&mut self, reply: PanelReply) -> (act: PanelAction)
        ensures
            (final(self)@, act@) == reply_step(old(self)@, reply),
    {
        let mut pending = Pending::Idle;
        std::mem::swap(&mut pending, &mut self.pending);
        proof {
            assert(old(self)@.pending == pending@);
        }
        match (pending, reply) {
            (Pending::BkExists, PanelReply::Exists(b)) => {
                if b {
                    self.pending = Pending::BkInput;
                    PanelAction::ChooseFile(self.bk_value.clone())
                } else {
                    self.pending = Pending::BkDbExists;
                    PanelAction::CheckPath(self.db_value.clone())
                }
            },
            (Pending::BkDbExists, PanelReply::Exists(b)) => {
                self.pending = Pending::BkInput;
                if b {
                    PanelAction::ChooseFile(self.db_value.clone())
                } else {
                    PanelAction::ChooseFile(self.bk_value.clone())
                }
            },
            (Pending::BkInput, PanelReply::Chosen { errcode, errstr, path }) => {
                if errcode == 0 {
                    self.msg_value = errstr;
                    let p = path.clone();
                    self.pending = Pending::BkList(path);
                    PanelAction::ReadListing(p)
                } else {
                    self.tell(errstr, MessColor::Red);
                    PanelAction::Done
                }
            },
            (Pending::BkList(path), PanelReply::Listing(file)) => {
                match file {
                    ListFile::Missing => {
                        let msg = join2("bklist file does not exist: ", path.as_str());
                        self.tell(msg, MessColor::Red);
                        PanelAction::Done
                    },
                    ListFile::Read(lines, failure) => {
                        self.read_listing(path, lines, failure.is_some())
                    },
                }
            },
            (Pending::DbExists, PanelReply::Exists(b)) => {
                if b {
                    self.pending = Pending::DbInput;
                    PanelAction::ChooseFile(self.db_value.clone())
                } else {
                    self.pending = Pending::DbBkExists;
                    PanelAction::CheckPath(self.bk_value.clone())
                }
            },
            (Pending::DbBkExists, PanelReply::Exists(b)) => {
                self.pending = Pending::DbInput;
                if b {
                    PanelAction::ChooseFile(self.bk_value.clone())
                } else {
                    PanelAction::ChooseFile(self.db_value.clone())
                }
            },
            (Pending::DbInput, PanelReply::Chosen { errcode, errstr, path }) => {
                if errcode == 0 {
                    self.msg_value = errstr;
                    let p = path.clone();
                    self.pending = Pending::DbOpen(path);
                    PanelAction::OpenDatabase(p)
                } else {
                    self.tell(errstr, MessColor::Red);
                    PanelAction::Done
                }
            },
            (Pending::DbOpen(path), PanelReply::DbChecked(err)) => {
                match err {
                    Some(e) => {
                        self.tell(join2("data base error: ", e.as_str()), MessColor::Red);
                        PanelAction::Done
                    },
                    None => {
                        self.db_value = path;
                        self.mess_color = MessColor::Green;
                        PanelAction::UseDatabase
                    },
                }
            },
            (Pending::ExExists, PanelReply::Exists(b)) => {
                if b {
                    self.pending = Pending::ExInput;
                    PanelAction::ChooseFile(self.exclude_value.clone())
                } else {
                    self.pending = Pending::ExBkExists;
                    PanelAction::CheckPath(self.bk_value.clone())
                }
            },
            (Pending::ExBkExists, PanelReply::Exists(b)) => {
                self.pending = Pending::ExInput;
                if b {
                    PanelAction::ChooseFile(self.bk_value.clone())
                } else {
                    PanelAction::ChooseFile(self.exclude_value.clone())
                }
            },
            (Pending::ExInput, PanelReply::Chosen { errcode, errstr, path }) => {
                if errcode == 0 {
                    self.exclude_value = path;
                    self.tell(errstr, MessColor::Green);
                } else {
                    self.tell(errstr, MessColor::Red);
                }
                PanelAction::Done
            },
            (Pending::OutExists, PanelReply::Exists(b)) => {
                if b {
                    self.pending = Pending::OutDir;
                    PanelAction::ChooseDir(self.outdir_value.clone())
                } else {
                    self.pending = Pending::OutBkExists;
                    PanelAction::CheckPath(self.bk_value.clone())
                }
            },
            (Pending::OutBkExists, PanelReply::Exists(b)) => {
                if b {
                    match parent_dir(self.bk_value.as_str()) {
                        Some(d) => {
                            self.pending = Pending::OutDir;
                            PanelAction::ChooseDir(d)
                        },
                        None => PanelAction::Stop(PanelFault::NoParentDirectory),
                    }
                } else {
                    self.pending = Pending::OutDir;
                    PanelAction::ChooseDir(self.outdir_value.clone())
                }
            },
            (Pending::OutDir, PanelReply::Chosen { errcode, errstr, path }) => {
                if errcode == 0 {
                    self.outdir_value = path;
                    self.tell(errstr, MessColor::Green);
                } else {
                    self.tell(errstr, MessColor::Red);
                }
                PanelAction::Done
            },
            (Pending::Press, PanelReply::Pressed { errcode, errstring }) => {
                if errcode == 0 {
                    self.tell(errstring, MessColor::Green);
                    PanelAction::StartRun(self.run_params())
                } else {
                    self.tell(errstring, MessColor::Red);
                    PanelAction::Done
                }
            },
            (Pending::Drain, PanelReply::Drained(m)) => {
                match m {
                    Some(text) => self.progress(text),
                    None => PanelAction::StartProgress { secs: 5, say: None },
                }
            },
            (other, _) => {
                self.pending = other;
                PanelAction::Done
            },
        }
    }
}

} // verus!
