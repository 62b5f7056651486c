use bkdbupdate::reconcile::{check_line, Bkup, LineFault, LineVerdict, RunFlags, UpdateSite};

fn row(rowid: u64, name: &str, dir: &str, size: u64, date: &str, md5: Option<&str>) -> Bkup {
    Bkup {
        rowid,
        refname: "ref1".to_string(),
        filename: name.to_string(),
        dirname: dir.to_string(),
        filesize: size,
        filedate: date.to_string(),
        md5sum: md5.map(|m| m.to_string()),
        locations: md5.map(|m| m.to_string()),
        notes: md5.map(|m| m.to_string()),
    }
}

fn flags(tstrun: bool, hourmust: bool, datemust: bool) -> RunFlags {
    RunFlags { tstrun, hourmust, datemust }
}

fn check(line: &str, excl: &[&str], rows: &[Bkup], f: RunFlags) -> Result<LineVerdict, LineFault> {
    let ex: Vec<String> = excl.iter().map(|s| s.to_string()).collect();
    let rs: Vec<Bkup> = rows
        .iter()
        .map(|r| Bkup {
            rowid: r.rowid,
            refname: r.refname.clone(),
            filename: r.filename.clone(),
            dirname: r.dirname.clone(),
            filesize: r.filesize,
            filedate: r.filedate.clone(),
            md5sum: r.md5sum.clone(),
            locations: r.locations.clone(),
            notes: r.notes.clone(),
        })
        .collect();
    check_line(&line.to_string(), &ex, &rs, f)
}

const DATE: &str = "2023-01-05 12:34:56";

#[test]
fn excluded_directory_goes_to_excluded_file() {
    let line = "a.txt|10|2023-01-05 12:34:56|/home/tmp/x|ref1|abc\n";
    let v = check(line, &["zzz", "tmp"], &[row(1, "a.txt", "/home/tmp/x", 10, DATE, None)], flags(false, true, true)).unwrap();
    assert_eq!(v.excluded, Some(format!("/home/tmp/x|{}", line)));
    assert!(v.notes.is_empty());
    assert!(v.update.is_none());
}

#[test]
fn unknown_file_gives_nothing() {
    let v = check("b.txt|10|x|/d|ref1|abc\n", &[], &[row(1, "a.txt", "/d", 10, DATE, None)], flags(false, true, true)).unwrap();
    assert!(v.excluded.is_none() && v.notes.is_empty() && v.update.is_none());
}

#[test]
fn name_is_trimmed_and_first_row_counts() {
    let rows = [row(1, "a.txt", "/other", 10, DATE, None), row(2, "a.txt", "/d", 10, DATE, None)];
    let v = check("  a.txt \t|10|x|/d|ref1|abc\n", &[], &rows, flags(true, true, true)).unwrap();
    assert_eq!(v.notes, vec!["for file a.txt directories do not match db:/other input:/d".to_string()]);
}

#[test]
fn invalid_size_is_reported() {
    let v = check("a.txt|12x|x|/d|ref1|abc\n", &[], &[row(1, "a.txt", "/d", 10, DATE, None)], flags(true, true, true)).unwrap();
    assert_eq!(v.notes, vec!["size of 12x is invalid for a.txt".to_string()]);
    let w = check("a.txt|-9999|x|/d|ref1|abc\n", &[], &[row(1, "a.txt", "/d", 10, DATE, None)], flags(true, true, true)).unwrap();
    assert_eq!(w.notes, vec!["size of -9999 is invalid for a.txt".to_string()]);
}

#[test]
fn size_difference_is_reported() {
    let v = check("a.txt|+11|x|/d|ref1|abc\n", &[], &[row(1, "a.txt", "/d", 10, DATE, None)], flags(true, true, true)).unwrap();
    assert_eq!(v.notes, vec!["file:a.txt sizes are not equal db:10 input:11".to_string()]);
    let w = check("a.txt|-1|2023-01-05 12:34:56|/d|ref1|abc\n", &[], &[row(1, "a.txt", "/d", u64::MAX, DATE, None)], flags(true, true, true)).unwrap();
    // -1 read as u64 is u64::MAX: the sizes count as equal and the dates are compared.
    assert!(w.notes.iter().all(|n| !n.contains("sizes are not equal")));
}

#[test]
fn same_date_without_checksum_in_test_run() {
    let line = format!("a.txt|10|{}|/d|ref1|abc\n", DATE);
    let v = check(&line, &[], &[row(7, "a.txt", "/d", 10, DATE, None)], flags(true, true, true)).unwrap();
    assert_eq!(v.notes, vec!["md5sum is null for a.txt".to_string(), "test run - update a.txt, row 7".to_string()]);
    assert!(v.update.is_none());
}

#[test]
fn same_date_without_checksum_in_update_run() {
    let line = format!("a.txt|10|{}|/d|ref1|abc\n", DATE);
    let v = check(&line, &[], &[row(7, "a.txt", "/d", 10, DATE, None)], flags(false, true, true)).unwrap();
    assert_eq!(v.notes, vec!["md5sum is null for a.txt".to_string()]);
    let u = v.update.unwrap();
    assert_eq!(u.rowid, 7);
    assert_eq!(u.md5, Some("abc\n".to_string()));
    assert_eq!(u.site, UpdateSite::SameDate);
    let short = format!("a.txt|10|{}|/d|ref1\n", DATE);
    let w = check(&short, &[], &[row(7, "a.txt", "/d", 10, DATE, None)], flags(false, true, true)).unwrap();
    assert_eq!(w.update.unwrap().md5, None);
}

#[test]
fn same_date_checksums_compared() {
    let line = format!("a.txt|10|{}|/d|ref1|abc", DATE);
    let same = check(&line, &[], &[row(7, "a.txt", "/d", 10, DATE, Some("abc"))], flags(false, true, true)).unwrap();
    assert_eq!(same.notes, vec!["md5sum same abc for a.txt".to_string()]);
    let differ = check(&line, &[], &[row(7, "a.txt", "/d", 10, DATE, Some("xyz"))], flags(false, true, true)).unwrap();
    assert_eq!(differ.notes, vec!["md5sum differ is db xyz and input abc for a.txt".to_string()]);
    assert!(differ.update.is_none());
}

#[test]
fn only_hour_differs_without_checksum() {
    let line = "a.txt|10|2023-01-05 13:34:56|/d|ref1|abc\n";
    let rows = [row(3, "a.txt", "/d", 10, DATE, None)];
    let free = check(line, &[], &rows, flags(false, false, true)).unwrap();
    assert_eq!(free.notes, vec!["md5sum is null for a.txt but hr diff ok".to_string()]);
    let u = free.update.unwrap();
    assert_eq!((u.rowid, u.site), (3, UpdateSite::OnlyHour));
    let tst = check(line, &[], &rows, flags(true, false, true)).unwrap();
    assert_eq!(tst.notes, vec!["md5sum is null for a.txt but hr diff ok".to_string(), "test run - update a.txt, row 3".to_string()]);
    let strict = check(line, &[], &rows, flags(false, true, true)).unwrap();
    assert_eq!(strict.notes, vec![format!("input size equal no md5sum but only hr different date db {} not equal to input 2023-01-05 13:34:56 for a.txt ", DATE)]);
}

#[test]
fn date_differs_without_checksum() {
    let line = "a.txt|10|2023-01-06 13:34:56|/d|ref1|abc\n";
    let rows = [row(3, "a.txt", "/d", 10, DATE, None)];
    let strict = check(line, &[], &rows, flags(false, false, true)).unwrap();
    assert_eq!(strict.notes, vec![format!("input size equal no md5sum but date db {} not equal to input 2023-01-06 13:34:56 for a.txt", DATE)]);
    assert!(strict.update.is_none());
    // A date that may differ counts as "only the hour differs".
    let loose = check(line, &[], &rows, flags(false, false, false)).unwrap();
    assert_eq!(loose.notes, vec!["md5sum is null for a.txt but hr diff ok".to_string()]);
}

#[test]
fn date_differs_with_checksum() {
    let rows = [row(3, "a.txt", "/d", 10, DATE, Some("abc"))];
    let hour = check("a.txt|10|2023-01-05 13:34:56|/d|ref1|abc", &[], &rows, flags(false, true, true)).unwrap();
    assert_eq!(hour.notes, vec![format!("only hr different date db {} not equal to input 2023-01-05 13:34:56 but size & md5sum same for a.txt", DATE)]);
    let date = check("a.txt|10|2023-01-05 13:00:00|/d|ref1|abc", &[], &rows, flags(false, true, true)).unwrap();
    assert_eq!(date.notes, vec![format!("date db {} not equal to input 2023-01-05 13:00:00 but size & md5sum same for a.txt", DATE)]);
    let other = check("a.txt|10|2023-01-05 13:00:00|/d|ref1|zzz", &[], &rows, flags(false, true, true)).unwrap();
    assert!(other.notes.is_empty() && other.update.is_none());
}

#[test]
fn lines_the_program_stops_on() {
    let rows = [row(3, "a.txt", "/d", 10, DATE, Some("abc"))];
    assert_eq!(check("a.txt|10|x\n", &[], &rows, flags(true, true, true)).err(), Some(LineFault::TooFewFields));
    assert_eq!(check("a.txt|10|2023|/d|ref1|abc", &[], &rows, flags(true, true, true)).err(), Some(LineFault::DateNotCut));
    assert_eq!(check("a.txt|10|2023-01-0é 12:34:56|/d|ref1|abc", &[], &rows, flags(true, true, true)).err(), Some(LineFault::DateNotCut));
    assert_eq!(check(&format!("a.txt|10|{}|/d", DATE), &[], &rows, flags(true, true, true)).err(), Some(LineFault::NoChecksumField));
}

#[test]
fn test_run_asks_no_update() {
    let rows = [row(1, "a.txt", "/d", 10, DATE, None), row(2, "b.txt", "/d", 10, DATE, None)];
    for line in ["a.txt|10|2023-01-05 12:34:56|/d|r|m\n", "b.txt|10|2023-01-05 11:34:56|/d|r|m\n"] {
        let v = check(line, &[], &rows, flags(true, false, false)).unwrap();
        assert!(v.update.is_none());
        let w = check(line, &[], &rows, flags(false, false, false)).unwrap();
        assert!(w.update.is_some());
    }
}

#[test]
fn test_run_previews_update_run() {
    let rows = [row(4, "a.txt", "/d", 10, DATE, None), row(5, "b.txt", "/d", 10, DATE, Some("m"))];
    for line in [
        "a.txt|10|2023-01-05 12:34:56|/d|r|m\n",
        "a.txt|10|2023-01-05 13:34:56|/d|r|m\n",
        "b.txt|10|2023-01-05 12:34:56|/d|r|m",
        "c.txt|10|x|/d|r|m\n",
    ] {
        let test = check(line, &[], &rows, flags(true, false, true)).unwrap();
        let real = check(line, &[], &rows, flags(false, false, true)).unwrap();
        assert!(test.update.is_none());
        match real.update {
            Some(u) => {
                let mut expected = real.notes.clone();
                expected.push(format!("test run - update a.txt, row {}", u.rowid));
                assert_eq!(test.notes, expected);
            }
            None => assert_eq!(test.notes, real.notes),
        }
    }
}
