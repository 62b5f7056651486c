//! The checks made before a run: the database holds exactly the table
//! `blubackup`, with rows of the reference name; the listing ("HD list")
//! exists, has six fields in its first line and as many lines as the panel
//! shows; the output directory exists; and the exclusion file, if one is
//! named, exists and is not empty. The outcome is a code (0: go ahead)
//! and a message.
//!
//! A state machine: `PressRun::new` gives the first outside work,
//! `PressRun::step` takes its answer and gives the next, until
//! `PressAction::Finish`.
use vstd::prelude::*;
use crate::events::{ListFile, QueryReply};
use crate::text::{
    chars_of, decimal, format_u64, join2, join3, join4, opt_text, split_bars, split_fields,
};

verus! {

/// What the checks are given.
pub struct PressParams {
    pub hd_value: String,
    pub rows_num: u64,
    pub outdir: String,
    pub excludefile: String,
    pub ref_value: String,
}

/// The answer the checks wait for.
#[derive(Clone, Copy, PartialEq, Eq, Structural, Debug)]
pub enum PressStage {
    Connect,
    Tables,
    Columns,
    RefRows,
    Hd,
    Outdir,
    Exclude,
    Done,
}

/// The checks in progress.
pub struct PressRun {
    pub params: PressParams,
    pub stage: PressStage,
    pub errcode: u32,
    pub errstring: String,
    pub bolok: bool,
    /// A line to print to the console when the checks end.
    pub say: Option<String>,
}

/// The outside work the checks ask for.
pub enum PressAction {
    /// Check the database connection (`PressReply::Connected`).
    CheckConnection,
    /// The names of the tables in the database (`PressReply::Tables`).
    ListTables,
    /// The column list of `blubackup` (`PressReply::Columns`).
    ListColumns,
    /// The number of rows with this reference name (`PressReply::RefRows`).
    CountRefRows(String),
    /// If the listing exists, its lines (`PressReply::Hd`).
    ReadHd(String),
    /// Whether the directory exists (`PressReply::Outdir`).
    CheckOutdir(String),
    /// If the exclusion file exists, its lines (`PressReply::Exclude`).
    ReadExclude(String),
    /// The checks are over: print `say` if there is one; the outcome.
    Finish { errcode: u32, errstring: String, say: Option<String> },
    /// The answer was not the one awaited; nothing to do.
    Nothing,
}

/// An answer to a `PressAction`.
pub enum PressReply {
    /// The connection check's error text (`{}`), `None` if fine.
    Connected(Option<String>),
    Tables(QueryReply<Vec<String>>),
    Columns(QueryReply<()>),
    RefRows(QueryReply<u64>),
    Hd(ListFile),
    Outdir(bool),
    Exclude(ListFile),
}

// ---------------------------------------------------------------------
// Specification
// ---------------------------------------------------------------------

pub open spec fn initial(run: PressRun, params: PressParams) -> bool {
    &&& run.params == params
    &&& run.stage == PressStage::Connect
    &&& run.errcode == 0
    &&& run.errstring@ == "all good and now process execution"@
    &&& run.bolok
    &&& run.say is None
}

/// The code, message and whether to go on, after an outcome in state `pre`.
pub open spec fn sets(pre: PressRun, post: PressRun, code: u32, msg: Seq<char>, ok: bool) -> bool {
    &&& post.params == pre.params
    &&& post.say == pre.say
    &&& post.errcode == code
    &&& post.errstring@ == msg
    &&& post.bolok == ok
}

/// Nothing but the stage changes.
pub open spec fn unchanged(pre: PressRun, post: PressRun) -> bool {
    &&& post.params == pre.params
    &&& post.say == pre.say
    &&& post.errcode == pre.errcode
    &&& post.errstring == pre.errstring
    &&& post.bolok == pre.bolok
}


/// `act` ends the checks with the outcome held in `post`.
pub open spec fn finishes(post: PressRun, act: PressAction) -> bool {
    &&& post.stage == PressStage::Done
    &&& act matches PressAction::Finish { errcode, errstring, say } && errcode == post.errcode
        && errstring@ == post.errstring@ && opt_text(say) == opt_text(post.say)
}

/// After the check `after`: the next check while all is well, else the end.
pub open spec fn proceeds(post: PressRun, after: PressStage, act: PressAction) -> bool {
    let p = post.params;
    match after {
        PressStage::Connect | PressStage::Tables | PressStage::Columns => if post.bolok {
            post.stage == PressStage::RefRows && (act matches PressAction::CountRefRows(r) && r@
                == p.ref_value@)
        } else {
            finishes(post, act)
        },
        PressStage::RefRows => if post.bolok {
            post.stage == PressStage::Hd && (act matches PressAction::ReadHd(h) && h@ == p.hd_value@)
        } else {
            finishes(post, act)
        },
        PressStage::Hd => if post.bolok {
            post.stage == PressStage::Outdir && (act matches PressAction::CheckOutdir(o) && o@
                == p.outdir@)
        } else {
            finishes(post, act)
        },
        PressStage::Outdir => if post.bolok && p.excludefile@ != "--"@ {
            post.stage == PressStage::Exclude && (act matches PressAction::ReadExclude(x) && x@
                == p.excludefile@)
        } else {
            finishes(post, act)
        },
        _ => finishes(post, act),
    }
}

/// The outcome of the listing check: the code, message and whether all
/// is well, from the lines read and the read error, if any.
pub open spec fn hd_outcome(pre: PressRun, lines: Seq<String>, failure: Option<String>) -> (u32, Seq<char>, bool) {
    if lines.len() > 0 && split_fields(lines[0]@).len() != 6 {
        (11, "HD list does not have 6 items per line separated by |"@, false)
    } else if failure is Some {
        (12, "error reading HD list "@, false)
    } else if lines.len() != pre.params.rows_num {
        (
            13,
            "HD rows do not match displayed: "@ + decimal(pre.params.rows_num as nat)
                + "  counted: "@ + decimal(lines.len()),
            false,
        )
    } else {
        (pre.errcode, pre.errstring@, pre.bolok)
    }
}

/// One step of the checks: state `post` and action `act` after the answer
/// `reply` in state `pre`.
pub open spec fn press_transition(pre: PressRun, reply: PressReply, post: PressRun, act: PressAction) -> bool {
    match (pre.stage, reply) {
        (PressStage::Connect, PressReply::Connected(Some(e))) => {
            &&& sets(pre, post, 1, "data base error: "@ + e@, false)
            &&& proceeds(post, PressStage::Connect, act)
        },
        (PressStage::Connect, PressReply::Connected(None)) => {
            &&& unchanged(pre, post)
            &&& post.stage == PressStage::Tables
            &&& act is ListTables
        },
        (PressStage::Tables, PressReply::Tables(QueryReply::PrepareFailed(e))) => {
            &&& sets(pre, post, 7, "Error doing sql select name "@ + e.debug@, false)
            &&& proceeds(post, PressStage::Tables, act)
        },
        (PressStage::Tables, PressReply::Tables(QueryReply::QueryFailed(e))) => {
            &&& sets(pre, post, 6, "Error doing sql select group "@ + e.debug@, false)
            &&& proceeds(post, PressStage::Tables, act)
        },
        (PressStage::Tables, PressReply::Tables(QueryReply::Rows(names))) => {
            let n = names@.len();
            let last = if n == 0 {
                "---"@
            } else {
                names@.last()@
            };
            if n == 0 {
                &&& sets(pre, post, 1, "no tables in database: tablena: "@ + last, false)
                &&& proceeds(post, PressStage::Tables, act)
            } else if n != 1 {
                &&& sets(
                    pre,
                    post,
                    2,
                    decimal(n) + " tables in database: last tablena: "@ + last,
                    false,
                )
                &&& proceeds(post, PressStage::Tables, act)
            } else if last != "blubackup"@ {
                &&& sets(pre, post, 3, "invalid table of "@ + last, false)
                &&& proceeds(post, PressStage::Tables, act)
            } else {
                &&& unchanged(pre, post)
                &&& post.stage == PressStage::Columns
                &&& act is ListColumns
            }
        },
        (PressStage::Columns, PressReply::Columns(QueryReply::PrepareFailed(e))) => {
            &&& sets(pre, post, 5, "Error doing sql select group "@ + e.debug@, false)
            &&& proceeds(post, PressStage::Columns, act)
        },
        (PressStage::Columns, PressReply::Columns(QueryReply::QueryFailed(e))) => {
            &&& sets(pre, post, 4, "Error doing sql select group "@ + e.debug@, false)
            &&& proceeds(post, PressStage::Columns, act)
        },
        (PressStage::Columns, PressReply::Columns(QueryReply::Rows(_))) => {
            &&& unchanged(pre, post)
            &&& proceeds(post, PressStage::Columns, act)
        },
        (PressStage::RefRows, PressReply::RefRows(QueryReply::PrepareFailed(e))) => {
            &&& post.params == pre.params
            &&& opt_text(post.say) == Some("Error doing sql select reference name bb "@ + e.debug@)
            &&& post.errcode == 10
            &&& post.errstring == pre.errstring
            &&& !post.bolok
            &&& proceeds(post, PressStage::RefRows, act)
        },
        (PressStage::RefRows, PressReply::RefRows(QueryReply::QueryFailed(e))) => {
            &&& sets(pre, post, 9, "Error doing sql select reference name aa "@ + e.debug@, false)
            &&& proceeds(post, PressStage::RefRows, act)
        },
        (PressStage::RefRows, PressReply::RefRows(QueryReply::Rows(count))) => {
            &&& if count < 1 {
                sets(
                    pre,
                    post,
                    8,
                    "No database entries for reference name "@ + pre.params.ref_value@,
                    false,
                )
            } else {
                unchanged(pre, post)
            }
            &&& proceeds(post, PressStage::RefRows, act)
        },
        (PressStage::Hd, PressReply::Hd(ListFile::Missing)) => {
            &&& sets(pre, post, 4, "HD file does not exist"@, pre.bolok)
            &&& proceeds(post, PressStage::Hd, act)
        },
        (PressStage::Hd, PressReply::Hd(ListFile::Read(lines, failure))) => {
            let o = hd_outcome(pre, lines@, failure);
            &&& sets(pre, post, o.0, o.1, o.2)
            &&& proceeds(post, PressStage::Hd, act)
        },
        (PressStage::Outdir, PressReply::Outdir(exists)) => {
            &&& if exists {
                unchanged(pre, post)
            } else {
                sets(pre, post, 14, "Output directory does not exist"@, false)
            }
            &&& proceeds(post, PressStage::Outdir, act)
        },
        (PressStage::Exclude, PressReply::Exclude(ListFile::Missing)) => {
            &&& sets(pre, post, 16, "Exclude file does not exist"@, pre.bolok)
            &&& proceeds(post, PressStage::Exclude, act)
        },
        (PressStage::Exclude, PressReply::Exclude(ListFile::Read(lines, failure))) => {
            &&& if failure is Some {
                sets(pre, post, 17, "error reading exclude list "@, false)
            } else if lines@.len() < 1 {
                sets(pre, post, 18, "error reading exclude list "@, pre.bolok)
            } else {
                unchanged(pre, post)
            }
            &&& proceeds(post, PressStage::Exclude, act)
        },
        _ => {
            &&& unchanged(pre, post)
            &&& post.stage == pre.stage
            &&& act is Nothing
        },
    }
}

// ---------------------------------------------------------------------
// Implementation
// ---------------------------------------------------------------------

fn copy_opt(s: &Option<String>) -> (r: Option<String>)
    ensures
        opt_text(r) == opt_text(*s),
{
    match s {
        Some(t) => Some(t.clone()),
        None => None,
    }
}

impl PressRun {
    /// The checks with these parameters, and the first work they ask for.
    pub fn new(params: PressParams) -> (r: (PressRun, PressAction))
        ensures
            initial(r.0, params),
            r.1 is CheckConnection,
    {
        let run = PressRun {
            params,
            stage: PressStage::Connect,
            errcode: 0,
            errstring: String::from_str("all good and now process execution"),
            bolok: true,
            say: None,
        };
        (run, PressAction::CheckConnection)
    }

    fn set(&mut self, code: u32, msg: String, ok: bool)
        ensures
            sets(*old(self), *final(self), code, msg@, ok),
            final(self).stage == old(self).stage,
    {
        self.errcode = code;
        self.errstring = msg;
        self.bolok = ok;
    }

    fn finish(&mut self) -> (act: PressAction)
        ensures
            unchanged(*old(self), *final(self)),
            finishes(*final(self), act),
    {
        self.stage = PressStage::Done;
        PressAction::Finish {
            errcode: self.errcode,
            errstring: self.errstring.clone(),
            say: copy_opt(&self.say),
        }
    }

    fn proceed(&mut self, after: PressStage) -> (act: PressAction)
        ensures
            unchanged(*old(self), *final(self)),
            proceeds(*final(self), after, act),
    {
        match after {
            PressStage::Connect | PressStage::Tables | PressStage::Columns => {
                if self.bolok {
                    self.stage = PressStage::RefRows;
                    PressAction::CountRefRows(self.params.ref_value.clone())
                } else {
                    self.finish()
                }
            },
            PressStage::RefRows => {
                if self.bolok {
                    self.stage = PressStage::Hd;
                    PressAction::ReadHd(self.params.hd_value.clone())
                } else {
                    self.finish()
                }
            },
            PressStage::Hd => {
                if self.bolok {
                    self.stage = PressStage::Outdir;
                    PressAction::CheckOutdir(self.params.outdir.clone())
                } else {
                    self.finish()
                }
            },
            PressStage::Outdir => {
                let dashes = String::from_str("--");
                if self.bolok && !self.params.excludefile.eq(&dashes) {
                    self.stage = PressStage::Exclude;
                    PressAction::ReadExclude(self.params.excludefile.clone())
                } else {
                    self.finish()
                }
            },
            _ => self.finish(),
        }
    }

    /// Takes the answer to the last action; gives the next action.
    pub fn step(&mut self, reply: PressReply) -> (act: PressAction)
        ensures
            press_transition(*old(self), reply, *final(self), act),
    {
        match (self.stage, reply) {
            (PressStage::Connect, PressReply::Connected(Some(e))) => {
                self.set(1, join2("data base error: ", e.as_str()), false);
                self.proceed(PressStage::Connect)
            },
            (PressStage::Connect, PressReply::Connected(None)) => {
                self.stage = PressStage::Tables;
                PressAction::ListTables
            },
            (PressStage::Tables, PressReply::Tables(q)) => {
                match q {
                    QueryReply::PrepareFailed(e) => {
                        self.set(7, join2("Error doing sql select name ", e.debug.as_str()), false);
                        self.proceed(PressStage::Tables)
                    },
                    QueryReply::QueryFailed(e) => {
                        self.set(
                            6,
                            join2("Error doing sql select group ", e.debug.as_str()),
                            false,
                        );
                        self.proceed(PressStage::Tables)
                    },
                    QueryReply::Rows(names) => {
                        let n = names.len();
                        let last = if n == 0 {
                            String::from_str("---")
                        } else {
                            names[n - 1].clone()
                        };
                        let table = String::from_str("blubackup");
                        if n == 0 {
                            self.set(
                                1,
                                join2("no tables in database: tablena: ", last.as_str()),
                                false,
                            );
                            self.proceed(PressStage::Tables)
                        } else if n != 1 {
                            let count = format_u64(n as u64);
                            self.set(
                                2,
                                join3(
                                    count.as_str(),
                                    " tables in database: last tablena: ",
                                    last.as_str(),
                                ),
                                false,
                            );
                            self.proceed(PressStage::Tables)
                        } else if !last.eq(&table) {
                            self.set(3, join2("invalid table of ", last.as_str()), false);
                            self.proceed(PressStage::Tables)
                        } else {
                            self.stage = PressStage::Columns;
                            PressAction::ListColumns
                        }
                    },
                }
            },
            (PressStage::Columns, PressReply::Columns(q)) => {
                match q {
                    QueryReply::PrepareFailed(e) => {
                        self.set(
                            5,
                            join2("Error doing sql select group ", e.debug.as_str()),
                            false,
                        );
                    },
                    QueryReply::QueryFailed(e) => {
                        self.set(
                            4,
                            join2("Error doing sql select group ", e.debug.as_str()),
                            false,
                        );
                    },
                    QueryReply::Rows(_) => {},
                }
                self.proceed(PressStage::Columns)
            },
            (PressStage::RefRows, PressReply::RefRows(q)) => {
                match q {
                    QueryReply::PrepareFailed(e) => {
                        self.say = Some(
                            join2("Error doing sql select reference name bb ", e.debug.as_str()),
                        );
                        self.errcode = 10;
                        self.bolok = false;
                    },
                    QueryReply::QueryFailed(e) => {
                        self.set(
                            9,
                            join2("Error doing sql select reference name aa ", e.debug.as_str()),
                            false,
                        );
                    },
                    QueryReply::Rows(count) => {
                        if count < 1 {
                            let msg = join2(
                                "No database entries for reference name ",
                                self.params.ref_value.as_str(),
                            );
                            self.set(8, msg, false);
                        }
                    },
                }
                self.proceed(PressStage::RefRows)
            },
            (PressStage::Hd, PressReply::Hd(file)) => {
                match file {
                    ListFile::Missing => {
                        let ok = self.bolok;
                        self.set(4, String::from_str("HD file does not exist"), ok);
                    },
                    ListFile::Read(lines, failure) => {
                        let mut bad_first = false;
                        if lines.len() > 0 {
                            let fields = split_bars(&chars_of(lines[0].as_str()));
                            bad_first = fields.len() != 6;
                        }
                        if bad_first {
                            self.set(
                                11,
                                String::from_str(
                                    "HD list does not have 6 items per line separated by |",
                                ),
                                false,
                            );
                        } else if failure.is_some() {
                            self.set(12, String::from_str("error reading HD list "), false);
                        } else if lines.len() as u64 != self.params.rows_num {
                            let shown = format_u64(self.params.rows_num);
                            let counted = format_u64(lines.len() as u64);
                            self.set(
                                13,
                                join4(
                                    "HD rows do not match displayed: ",
                                    shown.as_str(),
                                    "  counted: ",
                                    counted.as_str(),
                                ),
                                false,
                            );
                        }
                    },
                }
                self.proceed(PressStage::Hd)
            },
            (PressStage::Outdir, PressReply::Outdir(exists)) => {
                if !exists {
                    self.set(14, String::from_str("Output directory does not exist"), false);
                }
                self.proceed(PressStage::Outdir)
            },
            (PressStage::Exclude, PressReply::Exclude(file)) => {
                match file {
                    ListFile::Missing => {
                        let ok = self.bolok;
                        self.set(16, String::from_str("Exclude file does not exist"), ok);
                    },
                    ListFile::Read(lines, failure) => {
                        if failure.is_some() {
                            self.set(17, String::from_str("error reading exclude list "), false);
                        } else if lines.len() < 1 {
                            let ok = self.bolok;
                            self.set(18, String::from_str("error reading exclude list "), ok);
                        }
                    },
                }
                self.proceed(PressStage::Exclude)
            },
            _ => PressAction::Nothing,
        }
    }
}

} // verus!
