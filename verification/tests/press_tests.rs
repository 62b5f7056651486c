use bkdbupdate::events::{ListFile, QueryReply, SqlError};
use bkdbupdate::press::{PressAction, PressParams, PressReply, PressRun};

fn params(rows: u64, excl: &str) -> PressParams {
    PressParams {
        hd_value: "/lists/hd.txt".to_string(),
        rows_num: rows,
        outdir: "/out".to_string(),
        excludefile: excl.to_string(),
        ref_value: "ref1".to_string(),
    }
}

fn err(s: &str) -> SqlError {
    SqlError { shown: s.to_string(), debug: format!("E({})", s) }
}

fn lines(ls: &[&str]) -> Vec<String> {
    ls.iter().map(|s| s.to_string()).collect()
}

/// Runs the checks with canned answers; gives the outcome and the actions asked.
fn run(p: PressParams, mut answers: Vec<PressReply>) -> ((u32, String, Option<String>), Vec<String>) {
    let (mut m, mut act) = PressRun::new(p);
    let mut asked = Vec::new();
    answers.reverse();
    loop {
        match act {
            PressAction::Finish { errcode, errstring, say } => return ((errcode, errstring, say), asked),
            PressAction::Nothing => panic!("answer not awaited"),
            other => {
                asked.push(match other {
                    PressAction::CheckConnection => "connect".to_string(),
                    PressAction::ListTables => "tables".to_string(),
                    PressAction::ListColumns => "columns".to_string(),
                    PressAction::CountRefRows(r) => format!("count {}", r),
                    PressAction::ReadHd(h) => format!("hd {}", h),
                    PressAction::CheckOutdir(o) => format!("outdir {}", o),
                    PressAction::ReadExclude(x) => format!("exclude {}", x),
                    _ => unreachable!(),
                });
                act = m.step(answers.pop().expect("more answers"));
            }
        }
    }
}

fn good_db() -> Vec<PressReply> {
    vec![
        PressReply::Connected(None),
        PressReply::Tables(QueryReply::Rows(lines(&["blubackup"]))),
        PressReply::Columns(QueryReply::Rows(())),
        PressReply::RefRows(QueryReply::Rows(3)),
    ]
}

#[test]
fn all_checks_pass() {
    let mut a = good_db();
    a.push(PressReply::Hd(ListFile::Read(lines(&["a|1|d|/x|ref1|m\n", "b|1|d|/x|ref1|m\n"]), None)));
    a.push(PressReply::Outdir(true));
    a.push(PressReply::Exclude(ListFile::Read(lines(&["tmp\n"]), None)));
    let (out, asked) = run(params(2, "/lists/ex.txt"), a);
    assert_eq!(out, (0, "all good and now process execution".to_string(), None));
    assert_eq!(
        asked,
        vec!["connect", "tables", "columns", "count ref1", "hd /lists/hd.txt", "outdir /out", "exclude /lists/ex.txt"]
    );
}

#[test]
fn no_exclusion_file_skips_its_check() {
    let mut a = good_db();
    a.push(PressReply::Hd(ListFile::Read(lines(&["a|1|d|/x|ref1|m\n"]), None)));
    a.push(PressReply::Outdir(true));
    let (out, asked) = run(params(1, "--"), a);
    assert_eq!(out.0, 0);
    assert_eq!(asked.len(), 6);
}

#[test]
fn database_failures() {
    assert_eq!(run(params(0, "--"), vec![PressReply::Connected(Some("locked".to_string()))]).0, (1, "data base error: locked".to_string(), None));
    let t = |q| run(params(0, "--"), vec![PressReply::Connected(None), PressReply::Tables(q)]).0;
    assert_eq!(t(QueryReply::PrepareFailed(err("p"))), (7, "Error doing sql select name E(p)".to_string(), None));
    assert_eq!(t(QueryReply::QueryFailed(err("q"))), (6, "Error doing sql select group E(q)".to_string(), None));
    assert_eq!(t(QueryReply::Rows(vec![])), (1, "no tables in database: tablena: ---".to_string(), None));
    assert_eq!(t(QueryReply::Rows(lines(&["a", "b", "c"]))), (2, "3 tables in database: last tablena: c".to_string(), None));
    assert_eq!(t(QueryReply::Rows(lines(&["other"]))), (3, "invalid table of other".to_string(), None));
    let c = |q| run(params(0, "--"), vec![PressReply::Connected(None), PressReply::Tables(QueryReply::Rows(lines(&["blubackup"]))), PressReply::Columns(q)]).0;
    assert_eq!(c(QueryReply::PrepareFailed(err("p"))), (5, "Error doing sql select group E(p)".to_string(), None));
    assert_eq!(c(QueryReply::QueryFailed(err("q"))), (4, "Error doing sql select group E(q)".to_string(), None));
}

#[test]
fn reference_row_failures() {
    let r = |q| {
        let mut a = good_db();
        a.pop();
        a.push(PressReply::RefRows(q));
        run(params(0, "--"), a).0
    };
    assert_eq!(
        r(QueryReply::PrepareFailed(err("p"))),
        (10, "all good and now process execution".to_string(), Some("Error doing sql select reference name bb E(p)".to_string()))
    );
    assert_eq!(r(QueryReply::QueryFailed(err("q"))), (9, "Error doing sql select reference name aa E(q)".to_string(), None));
    assert_eq!(r(QueryReply::Rows(0)), (8, "No database entries for reference name ref1".to_string(), None));
}

#[test]
fn listing_failures() {
    let h = |f, rows| {
        let mut a = good_db();
        a.push(PressReply::Hd(f));
        a.push(PressReply::Outdir(true));
        run(params(rows, "--"), a).0
    };
    // A missing listing is reported but the other checks go on.
    assert_eq!(h(ListFile::Missing, 0), (4, "HD file does not exist".to_string(), None));
    assert_eq!(h(ListFile::Read(lines(&["a|1|d|/x|ref1\n"]), None), 1).0, 11);
    assert_eq!(h(ListFile::Read(lines(&["a|1|d|/x|ref1|m\n"]), Some("bad utf8".to_string())), 1).0, 12);
    assert_eq!(h(ListFile::Read(lines(&["a|1"]), Some("bad".to_string())), 1).0, 11);
    assert_eq!(h(ListFile::Read(vec![], Some("bad".to_string())), 0).0, 12);
    assert_eq!(
        h(ListFile::Read(lines(&["a|1|d|/x|ref1|m\n", "b\n"]), None), 5),
        (13, "HD rows do not match displayed: 5  counted: 2".to_string(), None)
    );
}

#[test]
fn directory_and_exclusion_failures() {
    let mut a = good_db();
    a.push(PressReply::Hd(ListFile::Read(lines(&["a|1|d|/x|ref1|m\n"]), None)));
    a.push(PressReply::Outdir(false));
    assert_eq!(run(params(1, "/e"), a).0, (14, "Output directory does not exist".to_string(), None));
    let x = |f| {
        let mut a = good_db();
        a.push(PressReply::Hd(ListFile::Read(lines(&["a|1|d|/x|ref1|m\n"]), None)));
        a.push(PressReply::Outdir(true));
        a.push(PressReply::Exclude(f));
        run(params(1, "/e"), a).0
    };
    assert_eq!(x(ListFile::Missing), (16, "Exclude file does not exist".to_string(), None));
    assert_eq!(x(ListFile::Read(lines(&["tmp\n"]), Some("io".to_string()))).0, 17);
    assert_eq!(x(ListFile::Read(vec![], None)), (18, "error reading exclude list ".to_string(), None));
}

#[test]
fn unexpected_answer_is_ignored() {
    let (mut m, _) = PressRun::new(params(0, "--"));
    assert!(matches!(m.step(PressReply::Outdir(true)), PressAction::Nothing));
    assert!(matches!(m.step(PressReply::Connected(None)), PressAction::ListTables));
}

#[test]
fn failure_code_never_returns_to_zero() {
    let (mut m, _) = PressRun::new(params(0, "--"));
    m.step(PressReply::Connected(Some("x".to_string())));
    assert_eq!(m.errcode, 1);
    m.step(PressReply::Tables(QueryReply::Rows(lines(&["blubackup"]))));
    assert_eq!(m.errcode, 1);
}
