//! What a single line of a backup listing says against the `blubackup`
//! rows of its reference name: excluded, unknown, or compared by
//! directory, size, date and md5 checksum, with the lines to write to the
//! run's output files and the checksum update to make.
//!
//! A listing line holds `name|size|date|directory|reference|md5` followed
//! by its line end.
use vstd::prelude::*;
use crate::text::{
    chars_of, char_index_of_byte, contains, contains_chars, decimal, format_i64, format_u64,
    parse_i64, parse_i64_spec, same_chars, signed_decimal, split_bars, split_fields, string_of,
    trim, trim_chars, chars_before_byte, opt_text, join2, join3, join4, join6, join7,
};

verus! {

/// One row of the `blubackup` table.
pub struct Bkup {
    pub rowid: u64,
    pub refname: String,
    pub filename: String,
    pub dirname: String,
    pub filesize: u64,
    pub filedate: String,
    pub md5sum: Option<String>,
    pub locations: Option<String>,
    pub notes: Option<String>,
}

/// The switches of a run: a test run writes what it would update instead
/// of updating; `hourmust` and `datemust` say whether a differing hour, or
/// a differing date, disqualifies a match on the rest of the time stamp.
#[derive(Clone, Copy)]
pub struct RunFlags {
    pub tstrun: bool,
    pub hourmust: bool,
    pub datemust: bool,
}

/// The request to store the listing's checksum in row `rowid`; `md5` is
/// the sixth field of the line, `None` where the line has fewer fields
/// (the update then stops the run once its statement is prepared).
pub struct Md5Update {
    pub md5: Option<String>,
    pub rowid: u64,
    pub site: UpdateSite,
}

/// Which comparison asked for the checksum update: equal time stamps, or
/// time stamps that differ in the hour only. (The program's console
/// messages about a failed update name the two apart.)
#[derive(Clone, Copy, PartialEq, Eq, Structural, Debug)]
pub enum UpdateSite {
    SameDate,
    OnlyHour,
}

/// What the check of one listing line produced.
pub struct LineVerdict {
    /// The line for the file of excluded entries.
    pub excluded: Option<String>,
    /// The lines for the run's error file, in order.
    pub notes: Vec<String>,
    /// The checksum to store, in an update run.
    pub update: Option<Md5Update>,
}

/// Why a listing line cannot be checked (the program stops on it).
#[derive(Clone, Copy, PartialEq, Eq, Structural, Debug)]
pub enum LineFault {
    /// Fewer than four fields.
    TooFewFields,
    /// A time stamp that has no character boundary at byte 10 or 13.
    DateNotCut,
    /// The checksum comparison needs a sixth field that the line lacks.
    NoChecksumField,
}

/// The mathematical content of a `LineVerdict`.
pub struct Report {
    pub excluded: Option<Seq<char>>,
    pub notes: Seq<Seq<char>>,
    pub update: Option<(Option<Seq<char>>, u64, UpdateSite)>,
}


impl View for LineVerdict {
    type V = Report;

    open spec fn view(&self) -> Report {
        Report {
            excluded: opt_text(self.excluded),
            notes: self.notes@.map_values(|s: String| s@),
            update: match self.update {
                Some(u) => Some((opt_text(u.md5), u.rowid, u.site)),
                None => None,
            },
        }
    }
}

// ---------------------------------------------------------------------
// The texts written to the output files
// ---------------------------------------------------------------------

pub open spec fn msg_excluded(dir: Seq<char>, line: Seq<char>) -> Seq<char> {
    dir + "|"@ + line
}

pub open spec fn msg_dir_differ(name: Seq<char>, dbdir: Seq<char>, dir: Seq<char>) -> Seq<char> {
    "for file "@ + name + " directories do not match db:"@ + dbdir + " input:"@ + dir
}

pub open spec fn msg_size_invalid(size: Seq<char>, name: Seq<char>) -> Seq<char> {
    "size of "@ + size + " is invalid for "@ + name
}

pub open spec fn msg_size_differ(name: Seq<char>, dbsize: u64, size: i64) -> Seq<char> {
    "file:"@ + name + " sizes are not equal db:"@ + decimal(dbsize as nat) + " input:"@
        + signed_decimal(size as int)
}

pub open spec fn msg_md5_null(name: Seq<char>) -> Seq<char> {
    "md5sum is null for "@ + name
}

pub open spec fn msg_md5_null_hr_ok(name: Seq<char>) -> Seq<char> {
    "md5sum is null for "@ + name + " but hr diff ok"@
}

pub open spec fn msg_test_update(name: Seq<char>, rowid: u64) -> Seq<char> {
    "test run - update "@ + name + ", row "@ + decimal(rowid as nat)
}

pub open spec fn msg_md5_same(md5: Seq<char>, name: Seq<char>) -> Seq<char> {
    "md5sum same "@ + md5 + " for "@ + name
}

pub open spec fn msg_md5_differ(db: Seq<char>, md5: Seq<char>, name: Seq<char>) -> Seq<char> {
    "md5sum differ is db "@ + db + " and input "@ + md5 + " for "@ + name
}

pub open spec fn msg_no_md5_hour(db: Seq<char>, date: Seq<char>, name: Seq<char>) -> Seq<char> {
    "input size equal no md5sum but only hr different date db "@ + db + " not equal to input "@
        + date + " for "@ + name + " "@
}

pub open spec fn msg_no_md5_date(db: Seq<char>, date: Seq<char>, name: Seq<char>) -> Seq<char> {
    "input size equal no md5sum but date db "@ + db + " not equal to input "@ + date + " for "@
        + name
}

pub open spec fn msg_same_but_hour(db: Seq<char>, date: Seq<char>, name: Seq<char>) -> Seq<char> {
    "only hr different date db "@ + db + " not equal to input "@ + date
        + " but size & md5sum same for "@ + name
}

pub open spec fn msg_same_but_date(db: Seq<char>, date: Seq<char>, name: Seq<char>) -> Seq<char> {
    "date db "@ + db + " not equal to input "@ + date + " but size & md5sum same for "@ + name
}

// ---------------------------------------------------------------------
// The specification of a line check
// ---------------------------------------------------------------------

pub open spec fn report_of(notes: Seq<Seq<char>>) -> Report {
    Report { excluded: None, notes, update: None }
}

/// The first row whose file name is `name`.
pub open spec fn matching_entry(entries: Seq<Bkup>, name: Seq<char>) -> Option<Bkup>
    decreases entries.len(),
{
    if entries.len() == 0 {
        None
    } else if entries[0].filename@ == name {
        Some(entries[0])
    } else {
        matching_entry(entries.drop_first(), name)
    }
}

/// Some exclusion text occurs in `dir`.
pub open spec fn excluded_by(dir: Seq<char>, exclusions: Seq<Seq<char>>) -> bool {
    exists|k: int| 0 <= k < exclusions.len() && contains(dir, #[trigger] exclusions[k])
}

/// The sixth field, where there is one.
pub open spec fn md5_field(f: Seq<Seq<char>>) -> Option<Seq<char>> {
    if f.len() >= 6 {
        Some(f[5])
    } else {
        None
    }
}

/// A row without checksum whose listing entry qualifies: note `first`, then
/// update the checksum, or in a test run say so.
pub open spec fn fill_report(f: Seq<Seq<char>>, name: Seq<char>, e: Bkup, flags: RunFlags, first: Seq<char>, site: UpdateSite) -> Report {
    if !flags.tstrun {
        Report { excluded: None, notes: seq![first], update: Some((md5_field(f), e.rowid, site)) }
    } else {
        report_of(seq![first, msg_test_update(name, e.rowid)])
    }
}

/// Size and date equal: compare checksums, or fill in the missing one.
pub open spec fn same_date_report(f: Seq<Seq<char>>, name: Seq<char>, e: Bkup, flags: RunFlags) -> Result<Report, LineFault> {
    match e.md5sum {
        None => Ok(fill_report(f, name, e, flags, msg_md5_null(name), UpdateSite::SameDate)),
        Some(m) => if f.len() < 6 {
            Err(LineFault::NoChecksumField)
        } else if m@ == f[5] {
            Ok(report_of(seq![msg_md5_same(f[5], name)]))
        } else {
            Ok(report_of(seq![msg_md5_differ(m@, f[5], name)]))
        },
    }
}

/// Size equal, dates differ: whether only the hour differs (the part from
/// byte 13 on is equal, and the first ten bytes too unless the date may
/// differ) decides what is said and whether a missing checksum is filled in.
pub open spec fn other_date_report(f: Seq<Seq<char>>, name: Seq<char>, e: Bkup, flags: RunFlags) -> Result<Report, LineFault> {
    let db = e.filedate@;
    let date = f[2];
    match (
        chars_before_byte(db, 10),
        chars_before_byte(db, 13),
        chars_before_byte(date, 10),
        chars_before_byte(date, 13),
    ) {
        (Some(a), Some(b), Some(c), Some(d)) => {
            let onlyhr = db.skip(b as int) == date.skip(d as int) && (db.take(a as int)
                == date.take(c as int) || !flags.datemust);
            match e.md5sum {
                None => if onlyhr {
                    if !flags.hourmust {
                        Ok(fill_report(f, name, e, flags, msg_md5_null_hr_ok(name), UpdateSite::OnlyHour))
                    } else {
                        Ok(report_of(seq![msg_no_md5_hour(db, date, name)]))
                    }
                } else {
                    Ok(report_of(seq![msg_no_md5_date(db, date, name)]))
                },
                Some(m) => if f.len() < 6 {
                    Err(LineFault::NoChecksumField)
                } else if m@ == f[5] {
                    if onlyhr {
                        Ok(report_of(seq![msg_same_but_hour(db, date, name)]))
                    } else {
                        Ok(report_of(seq![msg_same_but_date(db, date, name)]))
                    }
                } else {
                    Ok(report_of(Seq::empty()))
                },
            }
        },
        _ => Err(LineFault::DateNotCut),
    }
}

/// The size field as the program reads it: its `i64` value, `-9999` when
/// it does not parse.
pub open spec fn size_of_field(s: Seq<char>) -> i64 {
    match parse_i64_spec(s) {
        Some(v) => v,
        None => -9999i64,
    }
}

/// The listing line compared with the row `e` of the same file name.
pub open spec fn entry_report(f: Seq<Seq<char>>, name: Seq<char>, dir: Seq<char>, e: Bkup, flags: RunFlags) -> Result<Report, LineFault> {
    if e.dirname@ != dir {
        Ok(report_of(seq![msg_dir_differ(e.filename@, e.dirname@, dir)]))
    } else {
        let size = size_of_field(f[1]);
        if size == -9999 {
            Ok(report_of(seq![msg_size_invalid(f[1], name)]))
        } else if e.filesize != size as u64 {
            Ok(report_of(seq![msg_size_differ(name, e.filesize, size)]))
        } else if e.filedate@ == f[2] {
            same_date_report(f, name, e, flags)
        } else {
            other_date_report(f, name, e, flags)
        }
    }
}

/// What checking `line` gives: the file name is the trimmed first field and
/// the directory the fourth; a directory that contains an exclusion text
/// sends the line to the excluded file; otherwise the first row of that
/// file name, if any, is compared.
pub open spec fn line_report(line: Seq<char>, exclusions: Seq<Seq<char>>, entries: Seq<Bkup>, flags: RunFlags) -> Result<Report, LineFault> {
    let f = split_fields(line);
    if f.len() < 4 {
        Err(LineFault::TooFewFields)
    } else {
        let name = trim(f[0]);
        let dir = f[3];
        if excluded_by(dir, exclusions) {
            Ok(Report { excluded: Some(msg_excluded(dir, line)), notes: Seq::empty(), update: None })
        } else {
            match matching_entry(entries, name) {
                None => Ok(report_of(Seq::empty())),
                Some(e) => entry_report(f, name, dir, e, flags),
            }
        }
    }
}

// ---------------------------------------------------------------------
// Building the texts
// ---------------------------------------------------------------------

fn one_note(n: String) -> (v: LineVerdict)
    ensures
        v@ == report_of(seq![n@]),
{
    let mut notes: Vec<String> = Vec::new();
    notes.push(n);
    let v = LineVerdict { excluded: None, notes, update: None };
    assert(v@.notes =~= seq![n@]);
    v
}

fn no_notes() -> (v: LineVerdict)
    ensures
        v@ == report_of(Seq::empty()),
{
    let v = LineVerdict { excluded: None, notes: Vec::new(), update: None };
    assert(v@.notes =~= Seq::<Seq<char>>::empty());
    v
}

/// The characters of `v` from index `from` up to `to`.
fn sub_chars(v: &Vec<char>, from: usize, to: usize) -> (r: Vec<char>)
    requires
        from <= to <= v@.len(),
    ensures
        r@ == v@.subrange(from as int, to as int),
{
    let mut r: Vec<char> = Vec::new();
    let mut i: usize = from;
    while i < to
        invariant
            from <= i <= to <= v@.len(),
            r@ == v@.subrange(from as int, i as int),
        decreases to - i,
    {
        r.push(v[i]);
        i = i + 1;
        assert(v@.subrange(from as int, i as int) == v@.subrange(from as int, i - 1).push(
            v@[i - 1],
        ));
    }
    r
}

/// `fields` holds the fields `f` of the line.
pub open spec fn holds_fields(fields: Seq<Vec<char>>, f: Seq<Seq<char>>) -> bool {
    &&& fields.len() == f.len()
    &&& forall|k: int| 0 <= k < f.len() ==> #[trigger] fields[k]@ == f[k]
}

fn fill_verdict(
    fields: &Vec<Vec<char>>,
    Ghost(f): Ghost<Seq<Seq<char>>>,
    name: &String,
    e: &Bkup,
    flags: RunFlags,
    first: String,
    site: UpdateSite,
) -> (v: LineVerdict)
    requires
        holds_fields(fields@, f),
    ensures
        v@ == fill_report(f, name@, *e, flags, first@, site),
{
    let mut notes: Vec<String> = Vec::new();
    let ghost first_text = first@;
    notes.push(first);
    if !flags.tstrun {
        let md5 = if fields.len() >= 6 {
            Some(string_of(fields[5].clone()))
        } else {
            None
        };
        let v = LineVerdict { excluded: None, notes, update: Some(Md5Update { md5, rowid: e.rowid, site }) };
        assert(v@.notes =~= seq![first_text]);
        v
    } else {
        let row = format_u64(e.rowid);
        let second = join4("test run - update ", name.as_str(), ", row ", row.as_str());
        notes.push(second);
        let v = LineVerdict { excluded: None, notes, update: None };
        assert(v@.notes =~= seq![first_text, msg_test_update(name@, e.rowid)]);
        v
    }
}

pub open spec fn verdict_result(r: Result<LineVerdict, LineFault>) -> Result<Report, LineFault> {
    match r {
        Ok(v) => Ok(v@),
        Err(e) => Err(e),
    }
}

fn same_date_verdict(
    fields: &Vec<Vec<char>>,
    Ghost(f): Ghost<Seq<Seq<char>>>,
    name: &String,
    e: &Bkup,
    flags: RunFlags,
) -> (r: Result<LineVerdict, LineFault>)
    requires
        holds_fields(fields@, f),
    ensures
        verdict_result(r) == same_date_report(f, name@, *e, flags),
{
    match &e.md5sum {
        None => {
            let first = join2("md5sum is null for ", name.as_str());
            Ok(fill_verdict(fields, Ghost(f), name, e, flags, first, UpdateSite::SameDate))
        },
        Some(m) => {
            if fields.len() < 6 {
                return Err(LineFault::NoChecksumField);
            }
            let md5 = string_of(fields[5].clone());
            if m.eq(&md5) {
                Ok(one_note(join4("md5sum same ", md5.as_str(), " for ", name.as_str())))
            } else {
                Ok(
                    one_note(
                        join6(
                            "md5sum differ is db ",
                            m.as_str(),
                            " and input ",
                            md5.as_str(),
                            " for ",
                            name.as_str(),
                        ),
                    ),
                )
            }
        },
    }
}

fn other_date_verdict(
    fields: &Vec<Vec<char>>,
    Ghost(f): Ghost<Seq<Seq<char>>>,
    name: &String,
    e: &Bkup,
    flags: RunFlags,
) -> (r: Result<LineVerdict, LineFault>)
    requires
        holds_fields(fields@, f),
        f.len() >= 4,
    ensures
        verdict_result(r) == other_date_report(f, name@, *e, flags),
{
    let db = chars_of(e.filedate.as_str());
    let date = &fields[2];
    let a = char_index_of_byte(&db, 10);
    let b = char_index_of_byte(&db, 13);
    let c = char_index_of_byte(date, 10);
    let d = char_index_of_byte(date, 13);
    if a.is_none() || b.is_none() || c.is_none() || d.is_none() {
        return Err(LineFault::DateNotCut);
    }
    let a = a.unwrap();
    let b = b.unwrap();
    let c = c.unwrap();
    let d = d.unwrap();
    let db_rest = sub_chars(&db, b, db.len());
    let date_rest = sub_chars(date, d, date.len());
    let db_day = sub_chars(&db, 0, a);
    let date_day = sub_chars(date, 0, c);
    assert(db@.skip(b as int) == db_rest@);
    assert(f[2].skip(d as int) == date_rest@);
    assert(db@.take(a as int) == db_day@);
    assert(f[2].take(c as int) == date_day@);
    let onlyhr = same_chars(&db_rest, &date_rest) && (same_chars(&db_day, &date_day)
        || !flags.datemust);
    let date_s = string_of(date.clone());
    match &e.md5sum {
        None => {
            if onlyhr {
                if !flags.hourmust {
                    let first = join3("md5sum is null for ", name.as_str(), " but hr diff ok");
                    Ok(fill_verdict(fields, Ghost(f), name, e, flags, first, UpdateSite::OnlyHour))
                } else {
                    Ok(
                        one_note(
                            join7(
                                "input size equal no md5sum but only hr different date db ",
                                e.filedate.as_str(),
                                " not equal to input ",
                                date_s.as_str(),
                                " for ",
                                name.as_str(),
                                " ",
                            ),
                        ),
                    )
                }
            } else {
                Ok(
                    one_note(
                        join6(
                            "input size equal no md5sum but date db ",
                            e.filedate.as_str(),
                            " not equal to input ",
                            date_s.as_str(),
                            " for ",
                            name.as_str(),
                        ),
                    ),
                )
            }
        },
        Some(m) => {
            if fields.len() < 6 {
                return Err(LineFault::NoChecksumField);
            }
            let md5 = string_of(fields[5].clone());
            if m.eq(&md5) {
                if onlyhr {
                    Ok(
                        one_note(
                            join6(
                                "only hr different date db ",
                                e.filedate.as_str(),
                                " not equal to input ",
                                date_s.as_str(),
                                " but size & md5sum same for ",
                                name.as_str(),
                            ),
                        ),
                    )
                } else {
                    Ok(
                        one_note(
                            join6(
                                "date db ",
                                e.filedate.as_str(),
                                " not equal to input ",
                                date_s.as_str(),
                                " but size & md5sum same for ",
                                name.as_str(),
                            ),
                        ),
                    )
                }
            } else {
                Ok(no_notes())
            }
        },
    }
}

fn entry_verdict(
    fields: &Vec<Vec<char>>,
    Ghost(f): Ghost<Seq<Seq<char>>>,
    name: &String,
    dir: &String,
    e: &Bkup,
    flags: RunFlags,
) -> (r: Result<LineVerdict, LineFault>)
    requires
        holds_fields(fields@, f),
        f.len() >= 4,
    ensures
        verdict_result(r) == entry_report(f, name@, dir@, *e, flags),
{
    if !e.dirname.eq(dir) {
        return Ok(
            one_note(
                join6(
                    "for file ",
                    e.filename.as_str(),
                    " directories do not match db:",
                    e.dirname.as_str(),
                    " input:",
                    dir.as_str(),
                ),
            ),
        );
    }
    let size: i64 = match parse_i64(&fields[1]) {
        Some(v) => v,
        None => -9999,
    };
    if size == -9999 {
        let size_s = string_of(fields[1].clone());
        return Ok(one_note(join4("size of ", size_s.as_str(), " is invalid for ", name.as_str())));
    }
    if e.filesize != size as u64 {
        let db_s = format_u64(e.filesize);
        let in_s = format_i64(size);
        return Ok(
            one_note(
                join6(
                    "file:",
                    name.as_str(),
                    " sizes are not equal db:",
                    db_s.as_str(),
                    " input:",
                    in_s.as_str(),
                ),
            ),
        );
    }
    let date_s = string_of(fields[2].clone());
    if e.filedate.eq(&date_s) {
        same_date_verdict(fields, Ghost(f), name, e, flags)
    } else {
        other_date_verdict(fields, Ghost(f), name, e, flags)
    }
}

/// The text views of `v`.
pub open spec fn texts(v: Seq<String>) -> Seq<Seq<char>> {
    v.map_values(|s: String| s@)
}

/// Checks one listing line (as read, with its line end) against the
/// exclusion texts and the rows of the run's reference name.
pub fn check_line(line: &String, exclusions: &Vec<String>, entries: &Vec<Bkup>, flags: RunFlags) -> (r: Result<LineVerdict, LineFault>)
    ensures
        verdict_result(r) == line_report(line@, texts(exclusions@), entries@, flags),
{
    let lv = chars_of(line.as_str());
    let fields = split_bars(&lv);
    let ghost f = split_fields(lv@);
    assert(holds_fields(fields@, f));
    if fields.len() < 4 {
        return Err(LineFault::TooFewFields);
    }
    let name = string_of(trim_chars(&fields[0]));
    let dir_v = fields[3].clone();
    let dir = string_of(fields[3].clone());
    let ghost ex = texts(exclusions@);
    let mut k: usize = 0;
    while k < exclusions.len()
        invariant
            k <= exclusions.len(),
            ex == texts(exclusions@),
            ex.len() == exclusions@.len(),
            f.len() >= 4,
            f == split_fields(line@),
            dir_v@ == f[3],
            dir@ == f[3],
            forall|j: int| 0 <= j < k ==> !contains(f[3], #[trigger] ex[j]),
        decreases exclusions.len() - k,
    {
        let ev = chars_of(exclusions[k].as_str());
        assert(ex[k as int] == exclusions@[k as int]@);
        if contains_chars(&dir_v, &ev) {
            assert(contains(f[3], ex[k as int]));
            let text = join3(dir.as_str(), "|", line.as_str());
            let v = LineVerdict { excluded: Some(text), notes: Vec::new(), update: None };
            assert(v@.notes =~= Seq::<Seq<char>>::empty());
            return Ok(v);
        }
        k = k + 1;
    }
    assert(!excluded_by(f[3], ex));
    let mut i: usize = 0;
    assert(entries@.skip(0) == entries@);
    while i < entries.len()
        invariant
            i <= entries.len(),
            matching_entry(entries@, name@) == matching_entry(entries@.skip(i as int), name@),
            holds_fields(fields@, f),
            f.len() >= 4,
            f == split_fields(line@),
            name@ == trim(f[0]),
            dir@ == f[3],
            !excluded_by(f[3], texts(exclusions@)),
        decreases entries.len() - i,
    {
        assert(entries@.skip(i as int)[0] == entries@[i as int]);
        assert(entries@.skip(i as int).drop_first() == entries@.skip(i + 1));
        if entries[i].filename.eq(&name) {
            return entry_verdict(&fields, Ghost(f), &name, &dir, &entries[i], flags);
        }
        i = i + 1;
    }
    assert(entries@.skip(i as int).len() == 0);
    Ok(no_notes())
}

} // verus!
