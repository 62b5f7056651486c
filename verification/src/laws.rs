//! Properties of the program that hold across its operations.
use vstd::prelude::*;
use crate::execrun::{Execx, exec_transition, flags_of, trimmed, ExecAction, ExecReply, ExecRun, ExecStage};
use crate::panel::{
    message_step, path_parent, reply_step, ActionModel, DateChoice, HourChoice, Message,
    MessColor, PanelFault, PanelModel, PanelReply, PendingModel, ProgressValue, RunChoice,
    progress_step,
};
use crate::press::{press_transition, PressAction, PressReply, PressRun, PressStage};
use crate::reconcile::{
    excluded_by, line_report, matching_entry, msg_md5_null, msg_md5_null_hr_ok, msg_test_update, texts, Bkup,
    LineFault, Report, RunFlags, UpdateSite,
};
use crate::text::{
    all_digits, chars_before_byte, contains, decimal, decimal2, digit_char, digit_value, digits_value, is_digit,
    is_whitespace, occurs_at, parse_i32_spec, parse_i64_spec, signed_decimal, split_fields, trim};
use crate::events::{ListFile, QueryReply};
use crate::bklist::lemma_reference_check_passes;

verus! {

/// A test run never changes the database: whatever the line, the
/// exclusions and the rows, the check of a line in a test run asks for no
/// checksum update.
pub proof fn lemma_test_run_never_updates(
    line: Seq<char>,
    exclusions: Seq<Seq<char>>,
    entries: Seq<Bkup>,
    flags: RunFlags,
)
    requires
        flags.tstrun,
    ensures
        line_report(line, exclusions, entries, flags) matches Ok(r) ==> r.update is None,
{
}

/// A test run previews an update run: on the same line, exclusions and
/// rows, the test run gives the same outcome, except that where the update
/// run would store a checksum in row `r`, the test run notes
/// `test run - update <name>, row <r>` instead.
pub proof fn lemma_test_run_previews_updates(
    line: Seq<char>,
    exclusions: Seq<Seq<char>>,
    entries: Seq<Bkup>,
    hourmust: bool,
    datemust: bool,
)
    ensures
        ({
            let test = line_report(
                line,
                exclusions,
                entries,
                RunFlags { tstrun: true, hourmust, datemust },
            );
            let updating = line_report(
                line,
                exclusions,
                entries,
                RunFlags { tstrun: false, hourmust, datemust },
            );
            match updating {
                Ok(r) => match r.update {
                    Some(u) => test == Ok::<Report, LineFault>(
                        Report {
                            excluded: r.excluded,
                            notes: r.notes.push(
                                msg_test_update(trim(split_fields(line)[0]), u.1),
                            ),
                            update: None,
                        },
                    ),
                    None => test == updating,
                },
                Err(f) => test == updating,
            }
        }),
{
    let f = split_fields(line);
    if f.len() >= 4 {
        let name = trim(f[0]);
        if let Some(e) = matching_entry(entries, name) {
            assert(seq![msg_md5_null(name)].push(msg_test_update(name, e.rowid)) =~= seq![
                msg_md5_null(name),
                msg_test_update(name, e.rowid),
            ]);
            assert(seq![msg_md5_null_hr_ok(name)].push(msg_test_update(name, e.rowid)) =~= seq![
                msg_md5_null_hr_ok(name),
                msg_test_update(name, e.rowid),
            ]);
        }
    }
}

/// Checking a line in a run asks for a checksum update only in an update
/// run.
pub proof fn lemma_test_run_applies_no_update(pre: ExecRun, reply: ExecReply, post: ExecRun, act: ExecAction)
    requires
        exec_transition(pre, reply, post, act),
        pre.params.tstrun,
    ensures
        act matches ExecAction::Apply(v) ==> v.update is None,
{
    if let ExecReply::Line(l) = reply {
        if pre.stage == ExecStage::Reading {
            let ex = if pre.bexclusion {
                texts(pre.exclusions@)
            } else {
                Seq::empty()
            };
            lemma_test_run_never_updates(l@, ex, pre.entries@, flags_of(pre.params));
        }
    }
}

/// A checksum is written only into a row that has none: an update asked
/// for by the check of a line targets the row of that line's file name,
/// and that row has no checksum.
pub proof fn lemma_update_fills_missing_checksum(
    line: Seq<char>,
    exclusions: Seq<Seq<char>>,
    entries: Seq<Bkup>,
    flags: RunFlags,
)
    ensures
        line_report(line, exclusions, entries, flags) matches Ok(r) ==> (r.update matches Some(u)
            ==> (matching_entry(entries, trim(split_fields(line)[0])) matches Some(e) && e.md5sum is None
            && u.1 == e.rowid && !flags.tstrun)),
{
}

/// An excluded line is only written to the file of excluded entries: it
/// gives no note and no update.
pub proof fn lemma_excluded_line_only_listed(
    line: Seq<char>,
    exclusions: Seq<Seq<char>>,
    entries: Seq<Bkup>,
    flags: RunFlags,
)
    ensures
        line_report(line, exclusions, entries, flags) matches Ok(r) ==> (r.excluded is Some ==> (
        r.notes.len() == 0 && r.update is None)),
{
}

/// Choosing any input (listing, database, exclusion file with its box
/// ticked, output directory) sets the panel back to a test run in which
/// hour and date must be equal.
pub proof fn lemma_new_input_resets_to_test_run(pre: PanelModel, msg: Message)
    requires
        msg is BKPressed || msg is DBPressed || msg is OutdirPressed || (msg is EXPressed
            && pre.haveexclude),
    ensures
        message_step(pre, msg).0.runchoice_value == RunChoice::TST,
        message_step(pre, msg).0.hourchoice_value == HourChoice::EQL,
        message_step(pre, msg).0.datechoice_value == DateChoice::EQL,
{
}

/// With the exclusion box ticked but no exclusion file chosen, the exec
/// button neither checks nor runs anything.
pub proof fn lemma_no_run_without_exclusion_file(pre: PanelModel)
    requires
        pre.haveexclude,
        pre.exclude_value == "--"@,
    ensures
        message_step(pre, Message::ExecPressed).1 == ActionModel::Done,
{
}

/// A run starts only as the answer to passed pre-run checks (code 0), and
/// with the panel's database, listing, reference name, row count, output
/// directory, exclusion file and switches.
pub proof fn lemma_run_only_after_checks(pre: PanelModel, reply: PanelReply)
    ensures
        reply_step(pre, reply).1 is StartRun ==> {
            &&& pre.pending == PendingModel::Press
            &&& (reply matches PanelReply::Pressed { errcode, errstring } && errcode == 0)
            &&& reply_step(pre, reply).1 == ActionModel::StartRun(
                (
                    pre.db_value,
                    pre.bk_value,
                    pre.ref_value,
                    pre.rows_num,
                    pre.outdir_value,
                    pre.exclude_value,
                    pre.runchoice_value == RunChoice::TST,
                    pre.hourchoice_value == HourChoice::EQL,
                    pre.datechoice_value == DateChoice::EQL,
                ),
            )
        },
{
}

/// The pre-run checks never undo a failure: checks still under way have
/// found nothing that stops them; once the code is not 0 it stays so; and
/// once they have decided to stop they only finish.
pub proof fn lemma_press_failure_sticks(pre: PressRun, reply: PressReply, post: PressRun, act: PressAction)
    requires
        press_transition(pre, reply, post, act),
        pre.stage != PressStage::Done ==> pre.bolok,
    ensures
        post.stage != PressStage::Done ==> post.bolok,
        pre.errcode != 0 ==> post.errcode != 0,
        !pre.bolok ==> !post.bolok,
        !post.bolok ==> (act is Finish && post.stage == PressStage::Done) || act is Nothing,
{
}

/// The run is past opening the database and not yet over.
pub open spec fn working(run: ExecRun) -> bool {
    run.stage is Probing || run.stage is Starting || run.stage is Reading || run.stage is Applying
}

/// A run never undoes a failure: a run that looks for its output files,
/// fetches rows or reads lines has found nothing wrong; once its code is
/// not 0 it stays so, and once it has failed it does not recover.
pub proof fn lemma_run_failure_sticks(pre: ExecRun, reply: ExecReply, post: ExecRun, act: ExecAction)
    requires
        exec_transition(pre, reply, post, act),
        working(pre) ==> pre.bolok,
    ensures
        working(post) ==> post.bolok,
        pre.errcode != 0 ==> post.errcode != 0,
        !pre.bolok ==> !post.bolok,
{
}

/// Before any date or checksum comparison, the directory and the size
/// must agree: for a line with at least four fields whose directory is not
/// excluded and whose file name has a row, a differing directory gives
/// exactly the directory note; an unreadable size (or `-9999`) exactly the
/// invalid-size note; a readable size that differs from the row's size
/// (read as `u64`), in either direction, exactly the size note. None of
/// them asks for an update.
pub proof fn lemma_directory_and_size_come_first(
    line: Seq<char>,
    exclusions: Seq<Seq<char>>,
    entries: Seq<Bkup>,
    flags: RunFlags,
)
    ensures
        ({
            let f = split_fields(line);
            let name = trim(f[0]);
            if f.len() >= 4 && !excluded_by(f[3], exclusions) {
                match matching_entry(entries, name) {
                    Some(e) => {
                        let r = line_report(line, exclusions, entries, flags);
                        if e.dirname@ != f[3] {
                            r == Ok::<Report, LineFault>(
                                Report {
                                    excluded: None,
                                    notes: seq![
                                        "for file "@ + e.filename@ + " directories do not match db:"@
                                            + e.dirname@ + " input:"@ + f[3],
                                    ],
                                    update: None,
                                },
                            )
                        } else {
                            match parse_i64_spec(f[1]) {
                                Some(v) => if v == -9999 {
                                    r == Ok::<Report, LineFault>(
                                        Report {
                                            excluded: None,
                                            notes: seq![
                                                "size of "@ + f[1] + " is invalid for "@ + name,
                                            ],
                                            update: None,
                                        },
                                    )
                                } else if e.filesize != v as u64 {
                                    r == Ok::<Report, LineFault>(
                                        Report {
                                            excluded: None,
                                            notes: seq![
                                                "file:"@ + name + " sizes are not equal db:"@
                                                    + decimal(e.filesize as nat) + " input:"@
                                                    + signed_decimal(v as int),
                                            ],
                                            update: None,
                                        },
                                    )
                                } else {
                                    true
                                },
                                None => r == Ok::<Report, LineFault>(
                                    Report {
                                        excluded: None,
                                        notes: seq!["size of "@ + f[1] + " is invalid for "@ + name],
                                        update: None,
                                    },
                                ),
                            }
                        }
                    },
                    None => true,
                }
            } else {
                true
            }
        }),
{
}

/// A checksum update needs the row of the line's file name to agree with
/// the line in directory and size: the row has the line's fourth field as
/// directory, and the line's size field reads as a number (not `-9999`)
/// equal, as `u64`, to the row's size.
pub proof fn lemma_update_needs_equal_size(
    line: Seq<char>,
    exclusions: Seq<Seq<char>>,
    entries: Seq<Bkup>,
    flags: RunFlags,
)
    ensures
        ({
            let f = split_fields(line);
            match line_report(line, exclusions, entries, flags) {
                Ok(r) => r.update is Some ==> (f.len() >= 4 && match matching_entry(
                    entries,
                    trim(f[0]),
                ) {
                    Some(e) => e.dirname@ == f[3] && match parse_i64_spec(f[1]) {
                        Some(v) => v != -9999 && e.filesize == v as u64,
                        None => false,
                    },
                    None => false,
                }),
                Err(_) => true,
            }
        }),
{
}

/// A run checks every line with its own switches: on a listing line, the
/// action is what checking the line gives with the run's exclusions (when
/// it has any), its rows, and the switches `tstrun`, `hourmust`, `datemust`
/// of its parameters, each as given.
pub proof fn lemma_run_checks_lines_with_its_switches(
    pre: ExecRun,
    l: String,
    post: ExecRun,
    act: ExecAction,
)
    requires
        exec_transition(pre, ExecReply::Line(l), post, act),
        pre.stage == ExecStage::Reading,
    ensures
        ({
            let ex = if pre.bexclusion {
                texts(pre.exclusions@)
            } else {
                Seq::empty()
            };
            let flags = RunFlags {
                tstrun: pre.params.tstrun,
                hourmust: pre.params.hourmust,
                datemust: pre.params.datemust,
            };
            match line_report(l@, ex, pre.entries@, flags) {
                Ok(r) => act matches ExecAction::Apply(v) && v@ == r,
                Err(fault) => act matches ExecAction::Stop(g) && g == fault,
            }
        }),
{
}

/// The row count shown on the panel must be the listing's line count: once
/// the listing is read without error and its first line has six fields,
/// the checks go on exactly when the count matches, and otherwise stop with
/// code 13 and a message giving both counts.
pub proof fn lemma_listing_rows_must_match(
    pre: PressRun,
    lines: Vec<String>,
    post: PressRun,
    act: PressAction,
)
    requires
        press_transition(pre, PressReply::Hd(ListFile::Read(lines, None)), post, act),
        pre.stage == PressStage::Hd,
        pre.bolok,
        lines@.len() > 0,
        split_fields(lines@[0]@).len() == 6,
    ensures
        post.bolok <==> lines@.len() == pre.params.rows_num,
        lines@.len() == pre.params.rows_num ==> post.errcode == pre.errcode && post.errstring@
            == pre.errstring@,
        lines@.len() != pre.params.rows_num ==> post.errcode == 13 && post.errstring@
            == "HD rows do not match displayed: "@ + decimal(pre.params.rows_num as nat)
            + "  counted: "@ + decimal(lines@.len()),
{
}

/// A radio switch sets what it shows: after choosing `x` for the run, the
/// hour or the date, the panel holds `x` there.
pub proof fn lemma_radio_sets_choice(
    pre: PanelModel,
    run: RunChoice,
    hour: HourChoice,
    date: DateChoice,
)
    ensures
        message_step(pre, Message::RunRadioSelected(run)).0.runchoice_value == run,
        message_step(pre, Message::HourRadioSelected(hour)).0.hourchoice_value == hour,
        message_step(pre, Message::DateRadioSelected(date)).0.datechoice_value == date,
{
}

/// The exec button checks the panel's own values: the pre-run checks get
/// its listing, row count, output directory, exclusion file and reference
/// name (unless the exclusion box is ticked without a file).
pub proof fn lemma_checks_use_panel_values(pre: PanelModel)
    requires
        !(pre.haveexclude && pre.exclude_value == "--"@),
    ensures
        message_step(pre, Message::ExecPressed).1 == ActionModel::RunChecks(
            (pre.bk_value, pre.rows_num, pre.outdir_value, pre.exclude_value, pre.ref_value),
        ),
        message_step(pre, Message::ExecPressed).0.pending == PendingModel::Press,
{
}

/// A run switch chosen on the panel carries into the run: choosing `x`
/// and then passing the pre-run checks starts a run that is a test run
/// exactly when `x` is `TST`, with the panel's exclusion file.
pub proof fn lemma_chosen_run_kind_reaches_run(pre: PanelModel, x: RunChoice, reply: PanelReply)
    requires
        !(pre.haveexclude && pre.exclude_value == "--"@),
        reply matches PanelReply::Pressed { errcode, errstring } && errcode == 0,
    ensures
        ({
            let m1 = message_step(pre, Message::RunRadioSelected(x)).0;
            let m2 = message_step(m1, Message::ExecPressed).0;
            match reply_step(m2, reply).1 {
                ActionModel::StartRun(p) => p.6 == (x == RunChoice::TST) && p.5
                    == pre.exclude_value,
                _ => false,
            }
        }),
{
}

/// The row and the line agree in directory and size: the file name, the
/// directory and the size that the line gives.
pub open spec fn agrees_up_to_date(line: Seq<char>, exclusions: Seq<Seq<char>>, e: Bkup) -> bool {
    let f = split_fields(line);
    &&& f.len() >= 4
    &&& !(exists|k: int, i: int|
        0 <= k < exclusions.len() && 0 <= i && i + exclusions[k].len() <= f[3].len()
            && #[trigger] f[3].subrange(i, i + exclusions[k].len()) == exclusions[k])
    &&& e.dirname@ == f[3]
    &&& parse_i64_spec(f[1]) matches Some(v) && v != -9999 && e.filesize == v as u64
}

/// Equal time stamps: a row with a checksum has it compared with the
/// line's sixth field (one note, `same` or `differ`, no update); a row
/// without one gets the note `md5sum is null for <name>`, then in an update
/// run the sixth field as its checksum, in a test run the note
/// `test run - update <name>, row <rowid>`.
pub proof fn lemma_equal_dates_compare_checksums(
    line: Seq<char>,
    exclusions: Seq<Seq<char>>,
    entries: Seq<Bkup>,
    flags: RunFlags,
)
    ensures
        ({
            let f = split_fields(line);
            let name = trim(f[0]);
            match matching_entry(entries, name) {
                Some(e) => (agrees_up_to_date(line, exclusions, e) && e.filedate@ == f[2]) ==> {
                    let r = line_report(line, exclusions, entries, flags);
                    match e.md5sum {
                        Some(m) => if f.len() >= 6 {
                            r == Ok::<Report, LineFault>(
                                Report {
                                    excluded: None,
                                    notes: if m@ == f[5] {
                                        seq!["md5sum same "@ + f[5] + " for "@ + name]
                                    } else {
                                        seq![
                                            "md5sum differ is db "@ + m@ + " and input "@ + f[5]
                                                + " for "@ + name,
                                        ]
                                    },
                                    update: None,
                                },
                            )
                        } else {
                            r == Err::<Report, LineFault>(LineFault::NoChecksumField)
                        },
                        None => r == Ok::<Report, LineFault>(
                            if flags.tstrun {
                                Report {
                                    excluded: None,
                                    notes: seq![
                                        "md5sum is null for "@ + name,
                                        "test run - update "@ + name + ", row "@ + decimal(
                                            e.rowid as nat,
                                        ),
                                    ],
                                    update: None,
                                }
                            } else {
                                Report {
                                    excluded: None,
                                    notes: seq!["md5sum is null for "@ + name],
                                    update: Some(
                                        (
                                            if f.len() >= 6 {
                                                Some(f[5])
                                            } else {
                                                None
                                            },
                                            e.rowid,
                                            UpdateSite::SameDate,
                                        ),
                                    ),
                                }
                            },
                        ),
                    }
                },
                None => true,
            }
        }),
{
    let f = split_fields(line);
    let name = trim(f[0]);
    if let Some(e) = matching_entry(entries, name) {
        if agrees_up_to_date(line, exclusions, e) && e.filedate@ == f[2] {
            assert(!excluded_by(f[3], exclusions)) by {
                if excluded_by(f[3], exclusions) {
                    let k = choose|k: int|
                        0 <= k < exclusions.len() && contains(f[3], #[trigger] exclusions[k]);
                    let i = choose|i: int| occurs_at(f[3], exclusions[k], i);
                    assert(f[3].subrange(i, i + exclusions[k].len()) == exclusions[k]);
                }
            }
        }
    }
}

/// Differing time stamps: the stamps are cut after byte 10 (the date) and
/// from byte 13 on (minutes and seconds); "only the hour differs" when the
/// minutes and seconds agree and the dates agree too or the date may
/// differ (`datemust` false). Without a checksum in the row: if only the
/// hour differs and the hour may differ (`hourmust` false), the row's
/// checksum is filled in (or, in a test run, announced) after the note
/// `md5sum is null for <name> but hr diff ok`; otherwise one note says why
/// not. With a checksum equal to the line's, one note says the files match
/// but for the hour, or but for the date; a differing checksum gives
/// nothing. A stamp that cannot be cut stops the program.
pub proof fn lemma_differing_dates(
    line: Seq<char>,
    exclusions: Seq<Seq<char>>,
    entries: Seq<Bkup>,
    flags: RunFlags,
)
    ensures
        ({
            let f = split_fields(line);
            let name = trim(f[0]);
            match matching_entry(entries, name) {
                Some(e) => (agrees_up_to_date(line, exclusions, e) && e.filedate@ != f[2]) ==> {
                    let r = line_report(line, exclusions, entries, flags);
                    let db = e.filedate@;
                    let date = f[2];
                    match (
                        chars_before_byte(db, 10),
                        chars_before_byte(db, 13),
                        chars_before_byte(date, 10),
                        chars_before_byte(date, 13),
                    ) {
                        (Some(a), Some(b), Some(c), Some(d)) => {
                            let same_rest = db.skip(b as int) == date.skip(d as int);
                            let same_day = db.take(a as int) == date.take(c as int);
                            let onlyhr = same_rest && (same_day || !flags.datemust);
                            match e.md5sum {
                                None => if onlyhr && !flags.hourmust {
                                    r == Ok::<Report, LineFault>(
                                        if flags.tstrun {
                                            Report {
                                                excluded: None,
                                                notes: seq![
                                                    "md5sum is null for "@ + name
                                                        + " but hr diff ok"@,
                                                    "test run - update "@ + name + ", row "@
                                                        + decimal(e.rowid as nat),
                                                ],
                                                update: None,
                                            }
                                        } else {
                                            Report {
                                                excluded: None,
                                                notes: seq![
                                                    "md5sum is null for "@ + name
                                                        + " but hr diff ok"@,
                                                ],
                                                update: Some(
                                                    (
                                                        if f.len() >= 6 {
                                                            Some(f[5])
                                                        } else {
                                                            None
                                                        },
                                                        e.rowid,
                                                        UpdateSite::OnlyHour,
                                                    ),
                                                ),
                                            }
                                        },
                                    )
                                } else if onlyhr {
                                    r == Ok::<Report, LineFault>(
                                        Report {
                                            excluded: None,
                                            notes: seq![
                                                "input size equal no md5sum but only hr different date db "@
                                                    + db + " not equal to input "@ + date
                                                    + " for "@ + name + " "@,
                                            ],
                                            update: None,
                                        },
                                    )
                                } else {
                                    r == Ok::<Report, LineFault>(
                                        Report {
                                            excluded: None,
                                            notes: seq![
                                                "input size equal no md5sum but date db "@ + db
                                                    + " not equal to input "@ + date + " for "@
                                                    + name,
                                            ],
                                            update: None,
                                        },
                                    )
                                },
                                Some(m) => if f.len() < 6 {
                                    r == Err::<Report, LineFault>(LineFault::NoChecksumField)
                                } else if m@ != f[5] {
                                    r == Ok::<Report, LineFault>(
                                        Report { excluded: None, notes: Seq::empty(), update: None },
                                    )
                                } else if onlyhr {
                                    r == Ok::<Report, LineFault>(
                                        Report {
                                            excluded: None,
                                            notes: seq![
                                                "only hr different date db "@ + db
                                                    + " not equal to input "@ + date
                                                    + " but size & md5sum same for "@ + name,
                                            ],
                                            update: None,
                                        },
                                    )
                                } else {
                                    r == Ok::<Report, LineFault>(
                                        Report {
                                            excluded: None,
                                            notes: seq![
                                                "date db "@ + db + " not equal to input "@ + date
                                                    + " but size & md5sum same for "@ + name,
                                            ],
                                            update: None,
                                        },
                                    )
                                },
                            }
                        },
                        _ => r == Err::<Report, LineFault>(LineFault::DateNotCut),
                    }
                },
                None => true,
            }
        }),
{
    let f = split_fields(line);
    let name = trim(f[0]);
    if let Some(e) = matching_entry(entries, name) {
        if agrees_up_to_date(line, exclusions, e) {
            assert(!excluded_by(f[3], exclusions)) by {
                if excluded_by(f[3], exclusions) {
                    let k = choose|k: int|
                        0 <= k < exclusions.len() && contains(f[3], #[trigger] exclusions[k]);
                    let i = choose|i: int| occurs_at(f[3], exclusions[k], i);
                    assert(f[3].subrange(i, i + exclusions[k].len()) == exclusions[k]);
                }
            }
        }
    }
}

/// A line is sent to the file of excluded entries exactly when one of the
/// exclusion texts occurs in its fourth field, and then as that field, `|`
/// and the whole line, alone.
pub proof fn lemma_exclusion_by_occurrence(
    line: Seq<char>,
    exclusions: Seq<Seq<char>>,
    entries: Seq<Bkup>,
    flags: RunFlags,
)
    ensures
        ({
            let f = split_fields(line);
            f.len() >= 4 ==> {
                let hit = exists|k: int, i: int|
                    0 <= k < exclusions.len() && 0 <= i && i + exclusions[k].len() <= f[3].len()
                        && #[trigger] f[3].subrange(i, i + exclusions[k].len()) == exclusions[k];
                let r = line_report(line, exclusions, entries, flags);
                &&& hit ==> r == Ok::<Report, LineFault>(
                    Report { excluded: Some(f[3] + "|"@ + line), notes: Seq::empty(), update: None },
                )
                &&& !hit ==> match r {
                    Ok(rr) => rr.excluded is None,
                    Err(_) => true,
                }
            }
        }),
{
    let f = split_fields(line);
    if f.len() >= 4 {
        let hit = exists|k: int, i: int|
            0 <= k < exclusions.len() && 0 <= i && i + exclusions[k].len() <= f[3].len()
                && #[trigger] f[3].subrange(i, i + exclusions[k].len()) == exclusions[k];
        if hit {
            let (k, i) = choose|k: int, i: int|
                0 <= k < exclusions.len() && 0 <= i && i + exclusions[k].len() <= f[3].len()
                    && #[trigger] f[3].subrange(i, i + exclusions[k].len()) == exclusions[k];
            assert(occurs_at(f[3], exclusions[k], i));
            assert(excluded_by(f[3], exclusions));
        } else {
            assert(!excluded_by(f[3], exclusions)) by {
                if excluded_by(f[3], exclusions) {
                    let k = choose|k: int|
                        0 <= k < exclusions.len() && contains(f[3], #[trigger] exclusions[k]);
                    let i = choose|i: int| occurs_at(f[3], exclusions[k], i);
                    assert(f[3].subrange(i, i + exclusions[k].len()) == exclusions[k]);
                }
            }
        }
    }
}

/// The listing dialog starts from the panel's listing if that path exists,
/// else from its database if that exists, else from the listing.
pub proof fn lemma_listing_dialog_start(pre: PanelModel, a: bool, b: bool)
    ensures
        ({
            let (m1, a1) = message_step(pre, Message::BKPressed);
            let (m2, a2) = reply_step(m1, PanelReply::Exists(a));
            &&& a1 == ActionModel::CheckPath(pre.bk_value)
            &&& if a {
                a2 == ActionModel::ChooseFile(pre.bk_value)
            } else {
                &&& a2 == ActionModel::CheckPath(pre.db_value)
                &&& reply_step(m2, PanelReply::Exists(b)).1 == ActionModel::ChooseFile(
                    if b {
                        pre.db_value
                    } else {
                        pre.bk_value
                    },
                )
            }
        }),
{
}

/// The database dialog starts from the panel's database if that path
/// exists, else from its listing if that exists, else from the database.
pub proof fn lemma_database_dialog_start(pre: PanelModel, a: bool, b: bool)
    ensures
        ({
            let (m1, a1) = message_step(pre, Message::DBPressed);
            let (m2, a2) = reply_step(m1, PanelReply::Exists(a));
            &&& a1 == ActionModel::CheckPath(pre.db_value)
            &&& if a {
                a2 == ActionModel::ChooseFile(pre.db_value)
            } else {
                &&& a2 == ActionModel::CheckPath(pre.bk_value)
                &&& reply_step(m2, PanelReply::Exists(b)).1 == ActionModel::ChooseFile(
                    if b {
                        pre.bk_value
                    } else {
                        pre.db_value
                    },
                )
            }
        }),
{
}

/// With its box ticked, the exclusion dialog starts from the panel's
/// exclusion file if that path exists, else from its listing if that
/// exists, else from the exclusion file.
pub proof fn lemma_exclusion_dialog_start(pre: PanelModel, a: bool, b: bool)
    requires
        pre.haveexclude,
    ensures
        ({
            let (m1, a1) = message_step(pre, Message::EXPressed);
            let (m2, a2) = reply_step(m1, PanelReply::Exists(a));
            &&& a1 == ActionModel::CheckPath(pre.exclude_value)
            &&& if a {
                a2 == ActionModel::ChooseFile(pre.exclude_value)
            } else {
                &&& a2 == ActionModel::CheckPath(pre.bk_value)
                &&& reply_step(m2, PanelReply::Exists(b)).1 == ActionModel::ChooseFile(
                    if b {
                        pre.bk_value
                    } else {
                        pre.exclude_value
                    },
                )
            }
        }),
{
}

/// The directory dialog starts from the panel's output directory if that
/// path exists, else from the parent directory of the listing if the
/// listing exists, else from the output directory.
pub proof fn lemma_directory_dialog_start(pre: PanelModel, a: bool, b: bool)
    ensures
        ({
            let (m1, a1) = message_step(pre, Message::OutdirPressed);
            let (m2, a2) = reply_step(m1, PanelReply::Exists(a));
            &&& a1 == ActionModel::CheckPath(pre.outdir_value)
            &&& if a {
                a2 == ActionModel::ChooseDir(pre.outdir_value)
            } else {
                &&& a2 == ActionModel::CheckPath(pre.bk_value)
                &&& reply_step(m2, PanelReply::Exists(b)).1 == if !b {
                    ActionModel::ChooseDir(pre.outdir_value)
                } else {
                    match path_parent(pre.bk_value) {
                        Some(d) => ActionModel::ChooseDir(d),
                        None => ActionModel::Stop(PanelFault::NoParentDirectory),
                    }
                }
            }
        }),
{
}

/// A dialog's answer lands where it belongs: the message becomes the
/// dialog's text; on success (code 0) the chosen path becomes the
/// exclusion file, or the output directory, the message turns green and
/// nothing else changes; otherwise nothing but the message (now red)
/// changes.
pub proof fn lemma_dialog_answer_stored(pre: PanelModel, reply: PanelReply)
    requires
        pre.pending == PendingModel::ExInput || pre.pending == PendingModel::OutDir,
        reply is Chosen,
    ensures
        ({
            let (post, act) = reply_step(pre, reply);
            match reply {
                PanelReply::Chosen { errcode, errstr, path } => {
                    &&& act == ActionModel::Done
                    &&& post.msg_value == errstr@
                    &&& post.pending == PendingModel::Idle
                    &&& if errcode == 0 {
                        &&& post.mess_color == MessColor::Green
                        &&& if pre.pending == PendingModel::ExInput {
                            post == PanelModel {
                                exclude_value: path@,
                                msg_value: errstr@,
                                mess_color: MessColor::Green,
                                pending: PendingModel::Idle,
                                ..pre
                            }
                        } else {
                            post == PanelModel {
                                outdir_value: path@,
                                msg_value: errstr@,
                                mess_color: MessColor::Green,
                                pending: PendingModel::Idle,
                                ..pre
                            }
                        }
                    } else {
                        post == PanelModel {
                            msg_value: errstr@,
                            mess_color: MessColor::Red,
                            pending: PendingModel::Idle,
                            ..pre
                        }
                    }
                },
                _ => true,
            }
        }),
{
}

/// A database chosen in the dialog is opened, and becomes the panel's
/// database only if it passes the check; a failed check leaves the
/// database as it was and says why.
pub proof fn lemma_database_answer_stored(pre: PanelModel, chosen: PanelReply, checked: PanelReply)
    requires
        pre.pending == PendingModel::DbInput,
        chosen matches PanelReply::Chosen { errcode, errstr, path } && errcode == 0,
        checked is DbChecked,
    ensures
        ({
            let (m1, a1) = reply_step(pre, chosen);
            let (m2, a2) = reply_step(m1, checked);
            match (chosen, checked) {
                (PanelReply::Chosen { errcode, errstr, path }, PanelReply::DbChecked(err)) => {
                    &&& a1 == ActionModel::OpenDatabase(path@)
                    &&& match err {
                        None => {
                            &&& a2 == ActionModel::UseDatabase
                            &&& m2.db_value == path@
                            &&& m2.msg_value == errstr@
                            &&& m2.mess_color == MessColor::Green
                        },
                        Some(e) => {
                            &&& a2 == ActionModel::Done
                            &&& m2.db_value == pre.db_value
                            &&& m2.msg_value == "data base error: "@ + e@
                            &&& m2.mess_color == MessColor::Red
                        },
                    }
                },
                _ => false,
            }
        }),
{
}

/// A listing chosen in the dialog is read: if it is missing, the panel
/// says so and keeps its listing; if it reads without error and its first
/// line has six fields, it becomes the panel's listing, its first line's
/// fifth field the reference name and its line count the row count.
pub proof fn lemma_listing_answer_stored(pre: PanelModel, chosen: PanelReply, listing: PanelReply)
    requires
        pre.pending == PendingModel::BkInput,
        chosen matches PanelReply::Chosen { errcode, errstr, path } && errcode == 0,
        listing is Listing,
    ensures
        ({
            let (m1, a1) = reply_step(pre, chosen);
            let (m2, a2) = reply_step(m1, listing);
            match (chosen, listing) {
                (PanelReply::Chosen { errcode, errstr, path }, PanelReply::Listing(file)) => {
                    &&& a1 == ActionModel::ReadListing(path@)
                    &&& match file {
                        ListFile::Missing => {
                            &&& m2.bk_value == pre.bk_value
                            &&& m2.msg_value == "bklist file does not exist: "@ + path@
                            &&& m2.mess_color == MessColor::Red
                        },
                        ListFile::Read(lines, failure) => (failure is None && 0 < lines@.len()
                            <= u64::MAX && split_fields(lines@[0]@).len() == 6) ==> {
                            let reference = split_fields(lines@[0]@)[4];
                            &&& a2 == ActionModel::Done
                            &&& m2.bk_value == path@
                            &&& m2.ref_value == reference
                            &&& m2.rows_num == lines@.len()
                            &&& m2.mess_color == MessColor::Green
                            &&& m2.msg_value == "got bklist with reference name of "@ + reference
                                + " and retrieved its number of rows"@
                        },
                    }
                },
                _ => false,
            }
        }),
{
    if let PanelReply::Listing(ListFile::Read(lines, failure)) = listing {
        if failure is None && lines@.len() > 0 && split_fields(lines@[0]@).len() == 6 {
            assert(texts(lines@)[0] == lines@[0]@);
            lemma_reference_check_passes(texts(lines@), false, pre.ref_value);
            assert(texts(lines@).len() == lines@.len());
        }
    }
}

/// A run's exclusion texts are the exclusion file's lines, each trimmed;
/// it excludes anything only when the file has at least one line; an empty
/// file stops the run with code 2, a read error with code 1 (unless the
/// file is empty).
pub proof fn lemma_exclusions_loaded(
    pre: ExecRun,
    lines: Vec<String>,
    failure: Option<String>,
    post: ExecRun,
    act: ExecAction,
)
    requires
        exec_transition(pre, ExecReply::Exclusions(ListFile::Read(lines, failure)), post, act),
        pre.stage == ExecStage::Exclusions,
        !pre.bexclusion,
    ensures
        post.exclusions@.len() == lines@.len(),
        forall|i: int| 0 <= i < lines@.len() ==> #[trigger] post.exclusions@[i]@ == trim(lines@[i]@),
        post.bexclusion == (lines@.len() > 0),
        lines@.len() == 0 ==> post.errcode == 2 && !post.bolok && post.errstring@
            == "exclusion file "@ + pre.params.excludefile@ + " has no records"@,
        lines@.len() > 0 && failure is Some ==> post.errcode == 1 && !post.bolok,
        lines@.len() > 0 && failure is None ==> post.errcode == pre.errcode && post.bolok
            == pre.bolok,
        act matches ExecAction::OpenDatabase { path, check } && path@ == pre.params.db_value@
            && check == post.bolok,
{
    assert(texts(post.exclusions@).len() == post.exclusions@.len());
    assert(trimmed(lines@).len() == lines@.len());
    assert forall|i: int| 0 <= i < lines@.len() implies #[trigger] post.exclusions@[i]@ == trim(
        lines@[i]@,
    ) by {
        assert(texts(post.exclusions@)[i] == post.exclusions@[i]@);
        assert(trimmed(lines@)[i] == trim(lines@[i]@));
    }
    assert(texts(post.exclusions@).len() == post.exclusions@.len());
    assert(trimmed(lines@).len() == lines@.len());
}

/// The output files of a run are numbered: the first number (from 1) whose
/// error file `<outdir>/generrorsNN.errout` does not exist, at least two
/// digits; all three files of the run carry it.
pub proof fn lemma_output_files_numbered(pre: ExecRun, exists: bool, post: ExecRun, act: ExecAction)
    requires
        exec_transition(pre, ExecReply::Probed(exists), post, act),
        pre.stage == ExecStage::Probing,
        pre.outseq < u32::MAX,
    ensures
        exists ==> post.outseq == pre.outseq + 1 && (act matches ExecAction::ProbeErrorFile(p)
            && p@ == pre.params.outdir@ + "/"@ + "generrors"@ + decimal2((pre.outseq + 1) as nat) + ".errout"@),
        !exists ==> (act matches ExecAction::Begin { excluded, noentries, errors, listing, refname }
            && excluded@ == pre.params.outdir@ + "/"@ + "excluded"@ + decimal2(pre.outseq as nat)
            + ".excout"@ && noentries@ == pre.params.outdir@ + "/"@ + "noentries"@ + decimal2(
            pre.outseq as nat,
        ) + ".neout"@ && errors@ == pre.params.outdir@ + "/"@ + "generrors"@ + decimal2(
            pre.outseq as nat,
        ) + ".errout"@ && listing@ == pre.params.bk_value@ && refname@ == pre.params.ref_value@),
{
}

/// A number written with at least two digits is its decimal form,
/// padded on the left with `0` to two characters when it has only one.
pub proof fn lemma_two_digit_numbers(n: nat)
    ensures
        decimal2(n).len() == if decimal(n).len() < 2 {
            2
        } else {
            decimal(n).len()
        },
        decimal2(n).skip(decimal2(n).len() - decimal(n).len()) == decimal(n),
        forall|i: int| 0 <= i < decimal2(n).len() - decimal(n).len() ==> decimal2(n)[i] == '0',
{
    lemma_decimal_reads_back(n);
    if n < 10 {
        assert((seq!['0'] + decimal(n)).skip(1) == decimal(n));
    } else {
        assert(decimal(n).skip(0) == decimal(n));
    }
}

/// A number written in decimal reads back as itself: ASCII digits with no
/// leading zero, of value `n`.
pub proof fn lemma_decimal_reads_back(n: nat)
    ensures
        all_digits(decimal(n)),
        decimal(n).len() >= 1,
        decimal(n).len() > 1 ==> decimal(n)[0] != '0',
        digits_value(decimal(n)) == n,
        n >= 10 ==> decimal(n).len() >= 2,
    decreases n,
{
    if n < 10 {
        assert(((n + 48) as char) as u32 == n + 48);
        assert(digit_value(digit_char(n)) == n);
        assert(decimal(n) == seq![digit_char(n)]);
        assert(seq![digit_char(n)].drop_last() == Seq::<char>::empty());
        assert(digits_value(seq![digit_char(n)]) == digits_value(Seq::<char>::empty()) * 10
            + digit_value(digit_char(n)));
    } else {
        lemma_decimal_reads_back(n / 10);
        let d = decimal(n / 10);
        let r = n % 10;
        assert(((r + 48) as char) as u32 == r + 48);
        assert(digit_value(digit_char(r)) == r);
        assert(decimal(n) == d.push(digit_char(r)));
        assert(d.push(digit_char(r)).drop_last() == d);
        assert(d.push(digit_char(r)).last() == digit_char(r));
        assert(digits_value(d.push(digit_char(r))) == digits_value(d) * 10 + r);
        assert(n == (n / 10) * 10 + r);
        assert(d.push(digit_char(r))[0] == d[0]);
    }
}

/// Writing an `i64` in decimal and reading it back gives the same number.
pub proof fn lemma_i64_round_trip(i: i64)
    ensures
        parse_i64_spec(signed_decimal(i as int)) == Some(i),
{
    if i < 0 {
        let m = (-i) as nat;
        lemma_decimal_reads_back(m);
        let t = seq!['-'] + decimal(m);
        assert(t.drop_first() == decimal(m));
        assert(t[0] == '-');
    } else {
        lemma_decimal_reads_back(i as nat);
        assert(is_digit(decimal(i as nat)[0]));
    }
}

/// The pre-run checks' codes for the database stage: a failed connection
/// check 1, a table list that cannot be prepared 7 or run 6, no table 1,
/// more than one table 2, one table other than `blubackup` 3; a column list
/// that cannot be prepared 5 or run 4; reference rows that cannot be
/// prepared 10 (message kept, the error printed), run 9, or that are none 8.
/// Each of them ends the checks.
pub proof fn lemma_database_check_codes(pre: PressRun, reply: PressReply, post: PressRun, act: PressAction)
    requires
        press_transition(pre, reply, post, act),
        pre.bolok,
    ensures
        ({
            let code = match (pre.stage, reply) {
                (PressStage::Connect, PressReply::Connected(Some(_))) => 1u32,
                (PressStage::Tables, PressReply::Tables(QueryReply::PrepareFailed(_))) => 7,
                (PressStage::Tables, PressReply::Tables(QueryReply::QueryFailed(_))) => 6,
                (PressStage::Tables, PressReply::Tables(QueryReply::Rows(names))) => if names@.len()
                    == 0 {
                    1
                } else if names@.len() > 1 {
                    2
                } else if names@[0]@ != "blubackup"@ {
                    3
                } else {
                    0
                },
                (PressStage::Columns, PressReply::Columns(QueryReply::PrepareFailed(_))) => 5,
                (PressStage::Columns, PressReply::Columns(QueryReply::QueryFailed(_))) => 4,
                (PressStage::RefRows, PressReply::RefRows(QueryReply::PrepareFailed(_))) => 10,
                (PressStage::RefRows, PressReply::RefRows(QueryReply::QueryFailed(_))) => 9,
                (PressStage::RefRows, PressReply::RefRows(QueryReply::Rows(n))) => if n == 0 {
                    8
                } else {
                    0
                },
                (PressStage::Outdir, PressReply::Outdir(false)) => 14,
                (PressStage::Exclude, PressReply::Exclude(ListFile::Missing)) => 16,
                (PressStage::Exclude, PressReply::Exclude(ListFile::Read(_, Some(_)))) => 17,
                (PressStage::Exclude, PressReply::Exclude(ListFile::Read(lines, None))) => if lines@.len()
                    == 0 {
                    18
                } else {
                    0
                },
                _ => 0,
            };
            code != 0 ==> post.errcode == code && (act matches PressAction::Finish {
                errcode,
                errstring,
                say,
            } && errcode == code)
        }),
{
}

/// A missing listing is reported (code 4) but does not stop the checks:
/// the output directory is checked next.
pub proof fn lemma_missing_listing_goes_on(pre: PressRun, post: PressRun, act: PressAction)
    requires
        press_transition(pre, PressReply::Hd(ListFile::Missing), post, act),
        pre.stage == PressStage::Hd,
        pre.bolok,
    ensures
        post.errcode == 4,
        post.errstring@ == "HD file does not exist"@,
        post.bolok,
        act matches PressAction::CheckOutdir(o) && o@ == pre.params.outdir@,
{
}

/// The fields joined again with `|` between them.
pub open spec fn join_bars(xs: Seq<Seq<char>>) -> Seq<char>
    decreases xs.len(),
{
    if xs.len() <= 1 {
        if xs.len() == 1 {
            xs[0]
        } else {
            Seq::empty()
        }
    } else {
        join_bars(xs.drop_last()) + seq!['|'] + xs.last()
    }
}

/// Splitting a line at `|` loses nothing and keeps no `|`: no field holds a
/// `|`, and the fields joined with `|` give the line back.
pub proof fn lemma_split_undone_by_join(s: Seq<char>)
    ensures
        join_bars(split_fields(s)) == s,
        forall|k: int, i: int|
            0 <= k < split_fields(s).len() && 0 <= i < split_fields(s)[k].len() ==> #[trigger] split_fields(
                s,
            )[k][i] != '|',
    decreases s.len(),
{
    if s.len() == 0 {
        assert(split_fields(s) == seq![Seq::<char>::empty()]);
    } else {
        let t = s.drop_last();
        let c = s.last();
        lemma_split_undone_by_join(t);
        crate::text::lemma_split_len(t);
        let prev = split_fields(t);
        assert(s == t.push(c));
        if c == '|' {
            let xs = prev.push(Seq::<char>::empty());
            assert(xs.drop_last() == prev);
            assert(join_bars(xs) == join_bars(prev) + seq!['|'] + Seq::<char>::empty());
            assert(join_bars(xs) =~= s);
            assert forall|k: int, i: int|
                0 <= k < xs.len() && 0 <= i < xs[k].len() implies #[trigger] xs[k][i] != '|' by {
                assert(k < prev.len());
            }
        } else {
            let l = prev.len() - 1;
            let x = prev[l].push(c);
            let xs = prev.update(l, x);
            if prev.len() == 1 {
                assert(join_bars(prev) == prev[0]);
                assert(join_bars(xs) == x);
                assert(join_bars(xs) =~= s);
            } else {
                assert(xs.drop_last() == prev.drop_last());
                assert(xs.last() == x);
                assert(join_bars(prev) == join_bars(prev.drop_last()) + seq!['|'] + prev[l]);
                assert(join_bars(xs) == join_bars(prev.drop_last()) + seq!['|'] + x);
                assert(join_bars(xs) =~= s);
            }
            assert forall|k: int, i: int|
                0 <= k < xs.len() && 0 <= i < xs[k].len() implies #[trigger] xs[k][i] != '|' by {
                if k == l {
                    if i < prev[l].len() {
                        assert(xs[k][i] == prev[l][i]);
                    }
                } else {
                    assert(xs[k] == prev[k]);
                }
            }
        }
    }
}

proof fn lemma_leading_ws_facts(s: Seq<char>)
    ensures
        crate::text::leading_ws(s) <= s.len(),
        forall|i: int| 0 <= i < crate::text::leading_ws(s) ==> is_whitespace(#[trigger] s[i]),
        crate::text::leading_ws(s) < s.len() ==> !is_whitespace(s[crate::text::leading_ws(s) as int]),
    decreases s.len(),
{
    if s.len() > 0 && is_whitespace(s[0]) {
        let t = s.drop_first();
        lemma_leading_ws_facts(t);
        assert forall|i: int| 0 <= i < crate::text::leading_ws(s) implies is_whitespace(#[trigger] s[i]) by {
            if i > 0 {
                assert(s[i] == t[i - 1]);
            }
        }
    }
}

proof fn lemma_trailing_ws_facts(s: Seq<char>)
    ensures
        crate::text::trailing_ws(s) <= s.len(),
        forall|i: int|
            s.len() - crate::text::trailing_ws(s) <= i < s.len() ==> is_whitespace(#[trigger] s[i]),
        crate::text::trailing_ws(s) < s.len() ==> !is_whitespace(
            s[s.len() - 1 - crate::text::trailing_ws(s)],
        ),
    decreases s.len(),
{
    if s.len() > 0 && is_whitespace(s.last()) {
        let t = s.drop_last();
        lemma_trailing_ws_facts(t);
        assert forall|i: int|
            s.len() - crate::text::trailing_ws(s) <= i < s.len() implies is_whitespace(
            #[trigger] s[i],
        ) by {
            if i < s.len() - 1 {
                assert(s[i] == t[i]);
            }
        }
    }
}

/// Trimming removes exactly the whitespace at both ends: the result is a
/// stretch `s[a..b]` of `s`, everything before `a` and from `b` on is
/// whitespace, and a non-empty result begins and ends with a
/// non-whitespace character.
pub proof fn lemma_trim_strips_whitespace(s: Seq<char>)
    ensures
        exists|a: int, b: int|
            {
                &&& 0 <= a <= b <= s.len()
                &&& trim(s) == s.subrange(a, b)
                &&& forall|i: int| 0 <= i < a ==> is_whitespace(#[trigger] s[i])
                &&& forall|i: int| b <= i < s.len() ==> is_whitespace(#[trigger] s[i])
                &&& a < b ==> !is_whitespace(s[a]) && !is_whitespace(s[b - 1])
            },
{
    lemma_leading_ws_facts(s);
    let a = crate::text::leading_ws(s) as int;
    let t = s.skip(a);
    lemma_trailing_ws_facts(t);
    let b = a + t.len() - crate::text::trailing_ws(t);
    assert(trim(s) == s.subrange(a, b));
    assert forall|i: int| b <= i < s.len() implies is_whitespace(#[trigger] s[i]) by {
        assert(s[i] == t[i - a]);
    }
    if a < b {
        assert(s[b - 1] == t[b - 1 - a]);
        assert(s[a] == t[0]);
        if a < s.len() {
        }
    }
}

/// On ASCII text every byte position up to the end is a character
/// boundary, at the same character index; past the end there is none.
pub proof fn lemma_ascii_byte_positions(s: Seq<char>, b: int)
    requires
        forall|i: int| 0 <= i < s.len() ==> (#[trigger] s[i] as u32) < 0x80,
        0 <= b,
    ensures
        chars_before_byte(s, b) == if b <= s.len() {
            Some(b as nat)
        } else {
            None
        },
    decreases s.len(),
{
    if b != 0 && s.len() > 0 {
        let t = s.drop_first();
        assert forall|i: int| 0 <= i < t.len() implies (#[trigger] t[i] as u32) < 0x80 by {
            assert(t[i] == s[i + 1]);
        }
        lemma_ascii_byte_positions(t, b - 1);
    }
}

/// The row a line is compared with is the first row of that file name;
/// there is none only when no row has that name.
pub proof fn lemma_first_row_of_the_name(entries: Seq<Bkup>, name: Seq<char>)
    ensures
        match matching_entry(entries, name) {
            Some(e) => exists|k: int|
                0 <= k < entries.len() && #[trigger] entries[k] == e && e.filename@ == name && forall|
                    j: int,
                | 0 <= j < k ==> (#[trigger] entries[j]).filename@ != name,
            None => forall|k: int| 0 <= k < entries.len() ==> (#[trigger] entries[k]).filename@ != name,
        },
    decreases entries.len(),
{
    if entries.len() > 0 {
        let t = entries.drop_first();
        lemma_first_row_of_the_name(t, name);
        if entries[0].filename@ == name {
            assert(entries[0] == entries[0]);
        } else {
            match matching_entry(t, name) {
                Some(e) => {
                    let k = choose|k: int|
                        0 <= k < t.len() && #[trigger] t[k] == e && e.filename@ == name && forall|
                            j: int,
                        | 0 <= j < k ==> (#[trigger] t[j]).filename@ != name;
                    assert(entries[k + 1] == e);
                    assert forall|j: int| 0 <= j < k + 1 implies (#[trigger] entries[j]).filename@
                        != name by {
                        if j > 0 {
                            assert(entries[j] == t[j - 1]);
                        }
                    }
                },
                None => {
                    assert forall|k: int| 0 <= k < entries.len() implies (
                    #[trigger] entries[k]).filename@ != name by {
                        if k > 0 {
                            assert(entries[k] == t[k - 1]);
                        }
                    }
                },
            }
        }
    }
}

/// A finished run's outcome is shown: its message, green exactly when its
/// code is 0, the bar full, and the progress ticker off.
pub proof fn lemma_run_outcome_shown(pre: PanelModel, x: Execx)
    ensures
        ({
            let (post, act) = message_step(pre, Message::ExecxFound(Ok(x)));
            &&& act == ActionModel::Done
            &&& post.msg_value == x.errval@
            &&& (post.mess_color == MessColor::Green) == (x.errcd == 0)
            &&& post.mess_color == MessColor::Green || post.mess_color == MessColor::Red
            &&& post.progval == ProgressValue::Full
            &&& !post.do_progress
        }),
{
}

/// The exclusion box: ticking it keeps the exclusion file; clearing it
/// forgets the file (`--`); either way the box shows what was chosen.
pub proof fn lemma_exclusion_box(pre: PanelModel, ticked: bool)
    ensures
        ({
            let post = message_step(pre, Message::CheckExclude(ticked)).0;
            &&& post.haveexclude == ticked
            &&& post.exclude_value == if ticked {
                pre.exclude_value
            } else {
                "--"@
            }
        }),
{
}

/// A progress report `Progress|<done>|<total>|<text>` whose two numbers
/// read (and are not -9999) sets the bar to `done / total` and shows
/// `Test run progress: <done> of <total>  <text>` (or `Update run …` in an
/// update run) in blue; anything else leaves bar and message alone and is
/// printed. Either way the ticker goes on, every 5 seconds.
pub proof fn lemma_progress_report(pre: PanelModel, m: Seq<char>)
    ensures
        ({
            let (post, act) = progress_step(pre, m);
            let f = split_fields(m);
            if f.len() == 4 && f[0] == "Progress"@ && parse_i32_spec(f[1]) is Some && parse_i32_spec(
                f[2],
            ) is Some && parse_i32_spec(f[1]).unwrap() != -9999 && parse_i32_spec(f[2]).unwrap()
                != -9999 {
                let done = parse_i32_spec(f[1]).unwrap();
                let total = parse_i32_spec(f[2]).unwrap();
                &&& post.progval == ProgressValue::Ratio(done, total)
                &&& post.mess_color == MessColor::Blue
                &&& post.msg_value == (if pre.runchoice_value == RunChoice::TST {
                    "Test run progress: "@
                } else {
                    "Update run progress: "@
                }) + signed_decimal(done as int) + " of "@ + signed_decimal(total as int) + "  "@
                    + f[3]
                &&& act == ActionModel::StartProgress(5, None)
            } else {
                &&& post.progval == pre.progval
                &&& post.msg_value == pre.msg_value
                &&& act matches ActionModel::StartProgress(5, Some(_))
            }
        }),
{
}

/// A run that cannot check its database stops with code 21 and the
/// checker's text; a listing that cannot be read on stops it with code 1.
pub proof fn lemma_run_stop_codes(pre: ExecRun, reply: ExecReply, post: ExecRun, act: ExecAction)
    requires
        exec_transition(pre, reply, post, act),
        pre.bolok,
    ensures
        ({
            match reply {
                ExecReply::Opened(Some(t)) => pre.stage == ExecStage::Opening ==> {
                    &&& post.errcode == 21
                    &&& !post.bolok
                    &&& post.errstring@ == "error in opening db of "@ + t@ + " "@
                    &&& act is Finish
                },
                ExecReply::ReadFailed(t) => pre.stage == ExecStage::Reading ==> {
                    &&& post.errcode == 1
                    &&& !post.bolok
                    &&& post.errstring@ == "error of "@ + t@ + " reading input file "@
                    &&& act is Finish
                },
                ExecReply::EndOfFile => pre.stage == ExecStage::Reading ==> {
                    &&& post.errcode == pre.errcode
                    &&& (act matches ExecAction::Finish { result, say } && result.errcd
                        == pre.errcode && result.errval@ == pre.errstring@)
                },
                _ => true,
            }
        }),
{
}

/// The listing's shape before its count: a first line without six fields
/// gives code 11; a read error (with a good first line, or none) code 12;
/// both stop the checks.
pub proof fn lemma_listing_shape_codes(
    pre: PressRun,
    lines: Vec<String>,
    failure: Option<String>,
    post: PressRun,
    act: PressAction,
)
    requires
        press_transition(pre, PressReply::Hd(ListFile::Read(lines, failure)), post, act),
        pre.stage == PressStage::Hd,
        pre.bolok,
    ensures
        lines@.len() > 0 && split_fields(lines@[0]@).len() != 6 ==> post.errcode == 11
            && !post.bolok && act is Finish,
        !(lines@.len() > 0 && split_fields(lines@[0]@).len() != 6) && failure is Some
            ==> post.errcode == 12 && !post.bolok && act is Finish,
{
}

} // verus!
