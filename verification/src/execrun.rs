//! The reconciliation run: load the exclusion texts, open the database,
//! pick the first free number for the run's output files, fetch the rows
//! of the reference name, then check the listing line by line.
//!
//! The run is a state machine. `ExecRun::new` gives the first piece of
//! outside work to do; each answer goes to `ExecRun::step`, which decides
//! and gives the next, until `ExecAction::Finish` (or `ExecAction::Stop`,
//! on a line the program cannot process).
use vstd::prelude::*;
use crate::events::{ListFile, QueryReply};
use crate::reconcile::{
    check_line, line_report, texts, Bkup, LineFault, LineVerdict, RunFlags,
};
use crate::text::{decimal2, format_u32_2, join2, join3, join5, trim, trim_chars, chars_of, string_of};

verus! {

/// The outcome of a run: its code (0 when nothing went wrong) and message.
pub struct Execx {
    pub errcd: u32,
    pub errval: String,
}

/// What a run is given.
pub struct ExecParams {
    pub db_value: String,
    pub bk_value: String,
    pub ref_value: String,
    pub rows_num: u64,
    pub outdir: String,
    pub excludefile: String,
    pub tstrun: bool,
    pub hourmust: bool,
    pub datemust: bool,
}

/// The answer a run waits for.
#[derive(Clone, Copy, PartialEq, Eq, Structural, Debug)]
pub enum ExecStage {
    /// The exclusion file.
    Exclusions,
    /// The opened (and, if asked, checked) database.
    Opening,
    /// Whether the error file of the current number exists.
    Probing,
    /// The rows of the reference name.
    Starting,
    /// The next listing line.
    Reading,
    /// That the verdict on the last line has been carried out.
    Applying,
    /// Nothing: the run is over.
    Done,
}

/// A run in progress.
pub struct ExecRun {
    pub params: ExecParams,
    pub stage: ExecStage,
    pub errcode: u32,
    pub errstring: String,
    pub bolok: bool,
    pub exclusions: Vec<String>,
    pub bexclusion: bool,
    pub outseq: u32,
    pub entries: Vec<Bkup>,
}

/// The outside work a run asks for.
pub enum ExecAction {
    /// If the file exists, read its lines (`ExecReply::Exclusions`).
    ReadExclusions(String),
    /// Open the database (stopping the program if that fails) and, if
    /// `check`, check it (`ExecReply::Opened`).
    OpenDatabase { path: String, check: bool },
    /// Whether this file exists (`ExecReply::Probed`).
    ProbeErrorFile(String),
    /// Create the three output files, open the listing, and fetch the rows
    /// of `refname` (`ExecReply::Entries`).
    Begin { excluded: String, noentries: String, errors: String, listing: String, refname: String },
    /// Read the next listing line (`ExecReply::Line`, `EndOfFile`, `ReadFailed`).
    ReadLine,
    /// Write the verdict's lines and make its update (`ExecReply::Applied`).
    Apply(LineVerdict),
    /// The program stops on this line.
    Stop(LineFault),
    /// The run is over: print `say` if there is one, and report `result`.
    Finish { result: Execx, say: Option<String> },
    /// The answer was not the one awaited; nothing to do.
    Nothing,
}

/// An answer to an `ExecAction`.
pub enum ExecReply {
    Exclusions(ListFile),
    /// The checking error's text, `None` if fine or not checked.
    Opened(Option<String>),
    Probed(bool),
    Entries(QueryReply<Vec<Bkup>>),
    Line(String),
    EndOfFile,
    ReadFailed(String),
    Applied,
}

// ---------------------------------------------------------------------
// Specification
// ---------------------------------------------------------------------

pub open spec fn flags_of(p: ExecParams) -> RunFlags {
    RunFlags { tstrun: p.tstrun, hourmust: p.hourmust, datemust: p.datemust }
}

/// The name of one of the run's output files: `dir/<stem><nn><ext>`.
pub open spec fn out_name(dir: Seq<char>, stem: Seq<char>, seq: u32, ext: Seq<char>) -> Seq<char> {
    dir + "/"@ + stem + decimal2(seq as nat) + ext
}

pub open spec fn excluded_name(dir: Seq<char>, seq: u32) -> Seq<char> {
    out_name(dir, "excluded"@, seq, ".excout"@)
}

pub open spec fn noentries_name(dir: Seq<char>, seq: u32) -> Seq<char> {
    out_name(dir, "noentries"@, seq, ".neout"@)
}

pub open spec fn errors_name(dir: Seq<char>, seq: u32) -> Seq<char> {
    out_name(dir, "generrors"@, seq, ".errout"@)
}

/// The exclusion texts that a read gives: each line, trimmed.
pub open spec fn trimmed(lines: Seq<String>) -> Seq<Seq<char>> {
    lines.map_values(|s: String| trim(s@))
}

/// The state that a run starts in.
pub open spec fn initial(run: ExecRun, params: ExecParams) -> bool {
    &&& run.params == params
    &&& run.stage == ExecStage::Exclusions
    &&& run.errcode == 0
    &&& run.errstring@ == "test of exec "@
    &&& run.bolok
    &&& run.exclusions@.len() == 0
    &&& !run.bexclusion
    &&& run.outseq == 1
    &&& run.entries@.len() == 0
}

/// `post` is `pre` with only the stage and the numbers and texts named by
/// the caller changed (params, exclusions and rows kept).
pub open spec fn keeps_data(pre: ExecRun, post: ExecRun) -> bool {
    &&& post.params == pre.params
    &&& post.exclusions == pre.exclusions
    &&& post.bexclusion == pre.bexclusion
    &&& post.entries == pre.entries
}

/// `post` differs from `pre` in the stage at most.
pub open spec fn only_stage(pre: ExecRun, post: ExecRun) -> bool {
    &&& keeps_data(pre, post)
    &&& post.errcode == pre.errcode
    &&& post.errstring == pre.errstring
    &&& post.bolok == pre.bolok
    &&& post.outseq == pre.outseq
}

/// `act` finishes with the run's code and message and says `say`.
pub open spec fn finishes(post: ExecRun, act: ExecAction, say: Option<Seq<char>>) -> bool {
    &&& post.stage == ExecStage::Done
    &&& act matches ExecAction::Finish { result, say: s } && result.errcd == post.errcode
        && result.errval@ == post.errstring@ && match s {
        Some(t) => say == Some(t@),
        None => say is None,
    }
}

/// After the database is opened: look for the first free output number,
/// or stop.
pub open spec fn opened_next(post: ExecRun, act: ExecAction) -> bool {
    if post.bolok {
        &&& post.stage == ExecStage::Probing
        &&& act matches ExecAction::ProbeErrorFile(p) && p@ == errors_name(
            post.params.outdir@,
            post.outseq,
        )
    } else {
        finishes(post, act, None)
    }
}

/// One step of a run: the state `post` and the action `act` that follow
/// the answer `reply` in state `pre`.
pub open spec fn exec_transition(pre: ExecRun, reply: ExecReply, post: ExecRun, act: ExecAction) -> bool {
    match (pre.stage, reply) {
        (ExecStage::Exclusions, ExecReply::Exclusions(ListFile::Missing)) => {
            &&& only_stage(pre, post)
            &&& post.stage == ExecStage::Opening
            &&& act matches ExecAction::OpenDatabase { path, check } && path@
                == pre.params.db_value@ && check == pre.bolok
        },
        (ExecStage::Exclusions, ExecReply::Exclusions(ListFile::Read(lines, failure))) => {
            let code1 = if failure is Some {
                1u32
            } else {
                pre.errcode
            };
            let msg1 = match failure {
                Some(t) => "error of "@ + t@ + " reading exclude list "@,
                None => pre.errstring@,
            };
            let empty = lines@.len() == 0;
            &&& post.params == pre.params
            &&& post.entries == pre.entries
            &&& post.outseq == pre.outseq
            &&& texts(post.exclusions@) == trimmed(lines@)
            &&& post.bexclusion == (pre.bexclusion || !empty)
            &&& post.errcode == if empty {
                2u32
            } else {
                code1
            }
            &&& post.errstring@ == if empty {
                "exclusion file "@ + pre.params.excludefile@ + " has no records"@
            } else {
                msg1
            }
            &&& post.bolok == (pre.bolok && failure is None && !empty)
            &&& post.stage == ExecStage::Opening
            &&& act matches ExecAction::OpenDatabase { path, check } && path@
                == pre.params.db_value@ && check == post.bolok
        },
        (ExecStage::Opening, ExecReply::Opened(err)) => {
            &&& keeps_data(pre, post)
            &&& post.outseq == pre.outseq
            &&& match (pre.bolok, err) {
                (true, Some(t)) => {
                    &&& post.errcode == 21
                    &&& post.errstring@ == "error in opening db of "@ + t@ + " "@
                    &&& !post.bolok
                },
                _ => {
                    &&& post.errcode == pre.errcode
                    &&& post.errstring == pre.errstring
                    &&& post.bolok == pre.bolok
                },
            }
            &&& opened_next(post, act)
        },
        (ExecStage::Probing, ExecReply::Probed(true)) => {
            &&& keeps_data(pre, post)
            &&& post.errcode == pre.errcode
            &&& post.errstring == pre.errstring
            &&& post.bolok == pre.bolok
            &&& post.outseq == (if pre.outseq == u32::MAX {
                0
            } else {
                pre.outseq + 1
            })
            &&& post.stage == ExecStage::Probing
            &&& act matches ExecAction::ProbeErrorFile(p) && p@ == errors_name(
                pre.params.outdir@,
                post.outseq,
            )
        },
        (ExecStage::Probing, ExecReply::Probed(false)) => {
            &&& only_stage(pre, post)
            &&& post.stage == ExecStage::Starting
            &&& act matches ExecAction::Begin { excluded, noentries, errors, listing, refname }
                && excluded@ == excluded_name(pre.params.outdir@, pre.outseq) && noentries@
                == noentries_name(pre.params.outdir@, pre.outseq) && errors@ == errors_name(
                pre.params.outdir@,
                pre.outseq,
            ) && listing@ == pre.params.bk_value@ && refname@ == pre.params.ref_value@
        },
        (ExecStage::Starting, ExecReply::Entries(QueryReply::PrepareFailed(e))) => {
            &&& only_stage(pre, post)
            &&& finishes(post, act, Some("sql call bb update error "@ + e.shown@))
        },
        (ExecStage::Starting, ExecReply::Entries(QueryReply::QueryFailed(e))) => {
            &&& only_stage(pre, post)
            &&& finishes(post, act, Some("sql call ba update error "@ + e.shown@))
        },
        (ExecStage::Starting, ExecReply::Entries(QueryReply::Rows(rows))) => {
            &&& post.params == pre.params
            &&& post.exclusions == pre.exclusions
            &&& post.bexclusion == pre.bexclusion
            &&& post.entries == rows
            &&& post.errcode == pre.errcode
            &&& post.errstring == pre.errstring
            &&& post.bolok == pre.bolok
            &&& post.outseq == pre.outseq
            &&& post.stage == ExecStage::Reading
            &&& act is ReadLine
        },
        (ExecStage::Reading, ExecReply::EndOfFile) => {
            &&& only_stage(pre, post)
            &&& finishes(post, act, None)
        },
        (ExecStage::Reading, ExecReply::ReadFailed(t)) => {
            &&& keeps_data(pre, post)
            &&& post.outseq == pre.outseq
            &&& post.errcode == 1
            &&& post.errstring@ == "error of "@ + t@ + " reading input file "@
            &&& !post.bolok
            &&& finishes(post, act, None)
        },
        (ExecStage::Reading, ExecReply::Line(l)) => {
            let exclusions = if pre.bexclusion {
                texts(pre.exclusions@)
            } else {
                Seq::empty()
            };
            &&& only_stage(pre, post)
            &&& match line_report(l@, exclusions, pre.entries@, flags_of(pre.params)) {
                Ok(report) => {
                    &&& post.stage == ExecStage::Applying
                    &&& act matches ExecAction::Apply(v) && v@ == report
                },
                Err(fault) => {
                    &&& post.stage == ExecStage::Done
                    &&& act matches ExecAction::Stop(f) && f == fault
                },
            }
        },
        (ExecStage::Applying, ExecReply::Applied) => {
            &&& only_stage(pre, post)
            &&& post.stage == ExecStage::Reading
            &&& act is ReadLine
        },
        _ => {
            &&& only_stage(pre, post)
            &&& post.stage == pre.stage
            &&& act is Nothing
        },
    }
}

// ---------------------------------------------------------------------
// Implementation
// ---------------------------------------------------------------------

fn out_file_name(dir: &String, stem: &str, seq: u32, ext: &str) -> (r: String)
    ensures
        r@ == out_name(dir@, stem@, seq, ext@),
{
    let n = format_u32_2(seq);
    join5(dir.as_str(), "/", stem, n.as_str(), ext)
}

fn errors_file(dir: &String, seq: u32) -> (r: String)
    ensures
        r@ == errors_name(dir@, seq),
{
    out_file_name(dir, "generrors", seq, ".errout")
}

fn finish(run: &ExecRun, say: Option<String>) -> (act: ExecAction)
    ensures
        act matches ExecAction::Finish { result, say: s } && result.errcd == run.errcode
            && result.errval@ == run.errstring@ && s == say,
{
    let msg = run.errstring.clone();
    ExecAction::Finish { result: Execx { errcd: run.errcode, errval: msg }, say }
}

impl ExecRun {
    /// A run with these parameters, and the first work it asks for.
    pub fn new(params: ExecParams) -> (r: (ExecRun, ExecAction))
        ensures
            initial(r.0, params),
            r.1 matches ExecAction::ReadExclusions(p) && p@ == params.excludefile@,
    {
        let path = params.excludefile.clone();
        let run = ExecRun {
            params,
            stage: ExecStage::Exclusions,
            errcode: 0,
            errstring: String::from_str("test of exec "),
            bolok: true,
            exclusions: Vec::new(),
            bexclusion: false,
            outseq: 1,
            entries: Vec::new(),
        };
        (run, ExecAction::ReadExclusions(path))
    }

    /// Takes the answer to the last action; gives the next action.
    pub fn step(&mut self, reply: ExecReply) -> (act: ExecAction)
        ensures
            exec_transition(*old(self), reply, *final(self), act),
    {
        match (self.stage, reply) {
            (ExecStage::Exclusions, ExecReply::Exclusions(ListFile::Missing)) => {
                self.stage = ExecStage::Opening;
                let path = self.params.db_value.clone();
                ExecAction::OpenDatabase { path, check: self.bolok }
            },
            (ExecStage::Exclusions, ExecReply::Exclusions(ListFile::Read(lines, failure))) => {
                let mut ex: Vec<String> = Vec::new();
                let mut i: usize = 0;
                while i < lines.len()
                    invariant
                        i <= lines@.len(),
                        ex@.len() == i,
                        forall|j: int|
                            0 <= j < i ==> #[trigger] ex@[j]@ == trim(lines@[j]@),
                    decreases lines.len() - i,
                {
                    let t = string_of(trim_chars(&chars_of(lines[i].as_str())));
                    ex.push(t);
                    i = i + 1;
                }
                assert(texts(ex@) =~= trimmed(lines@));
                self.exclusions = ex;
                match failure {
                    Some(t) => {
                        self.errstring = join3("error of ", t.as_str(), " reading exclude list ");
                        self.errcode = 1;
                        self.bolok = false;
                    },
                    None => {},
                }
                if lines.len() < 1 {
                    self.errstring = join3(
                        "exclusion file ",
                        self.params.excludefile.as_str(),
                        " has no records",
                    );
                    self.errcode = 2;
                    self.bolok = false;
                } else {
                    self.bexclusion = true;
                }
                self.stage = ExecStage::Opening;
                let path = self.params.db_value.clone();
                ExecAction::OpenDatabase { path, check: self.bolok }
            },
            (ExecStage::Opening, ExecReply::Opened(err)) => {
                if self.bolok {
                    match err {
                        Some(t) => {
                            self.errstring = join3("error in opening db of ", t.as_str(), " ");
                            self.errcode = 21;
                            self.bolok = false;
                        },
                        None => {},
                    }
                }
                if self.bolok {
                    self.stage = ExecStage::Probing;
                    ExecAction::ProbeErrorFile(errors_file(&self.params.outdir, self.outseq))
                } else {
                    self.stage = ExecStage::Done;
                    finish(self, None)
                }
            },
            (ExecStage::Probing, ExecReply::Probed(exists)) => {
                if exists {
                    self.outseq = self.outseq.wrapping_add(1);
                    ExecAction::ProbeErrorFile(errors_file(&self.params.outdir, self.outseq))
                } else {
                    self.stage = ExecStage::Starting;
                    let dir = &self.params.outdir;
                    let excluded = out_file_name(dir, "excluded", self.outseq, ".excout");
                    let noentries = out_file_name(dir, "noentries", self.outseq, ".neout");
                    let errors = errors_file(dir, self.outseq);
                    let listing = self.params.bk_value.clone();
                    let refname = self.params.ref_value.clone();
                    ExecAction::Begin { excluded, noentries, errors, listing, refname }
                }
            },
            (ExecStage::Starting, ExecReply::Entries(q)) => {
                match q {
                    QueryReply::PrepareFailed(e) => {
                        self.stage = ExecStage::Done;
                        let say = join2("sql call bb update error ", e.shown.as_str());
                        finish(self, Some(say))
                    },
                    QueryReply::QueryFailed(e) => {
                        self.stage = ExecStage::Done;
                        let say = join2("sql call ba update error ", e.shown.as_str());
                        finish(self, Some(say))
                    },
                    QueryReply::Rows(rows) => {
                        self.entries = rows;
                        self.stage = ExecStage::Reading;
                        ExecAction::ReadLine
                    },
                }
            },
            (ExecStage::Reading, ExecReply::EndOfFile) => {
                self.stage = ExecStage::Done;
                finish(self, None)
            },
            (ExecStage::Reading, ExecReply::ReadFailed(t)) => {
                self.errstring = join3("error of ", t.as_str(), " reading input file ");
                self.errcode = 1;
                self.bolok = false;
                self.stage = ExecStage::Done;
                finish(self, None)
            },
            (ExecStage::Reading, ExecReply::Line(l)) => {
                let flags = RunFlags {
                    tstrun: self.params.tstrun,
                    hourmust: self.params.hourmust,
                    datemust: self.params.datemust,
                };
                let r = if self.bexclusion {
                    check_line(&l, &self.exclusions, &self.entries, flags)
                } else {
                    let none: Vec<String> = Vec::new();
                    assert(texts(none@) =~= Seq::<Seq<char>>::empty());
                    check_line(&l, &none, &self.entries, flags)
                };
                match r {
                    Ok(v) => {
                        self.stage = ExecStage::Applying;
                        ExecAction::Apply(v)
                    },
                    Err(fault) => {
                        self.stage = ExecStage::Done;
                        ExecAction::Stop(fault)
                    },
                }
            },
            (ExecStage::Applying, ExecReply::Applied) => {
                self.stage = ExecStage::Reading;
                ExecAction::ReadLine
            },
            _ => ExecAction::Nothing,
        }
    }
}

} // verus!
