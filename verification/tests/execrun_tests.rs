use bkdbupdate::events::{ListFile, QueryReply, SqlError};
use bkdbupdate::execrun::{ExecAction, ExecParams, ExecReply, ExecRun};
use bkdbupdate::reconcile::{Bkup, LineFault};

fn params(tstrun: bool) -> ExecParams {
    ExecParams {
        db_value: "/db/backup.db3".to_string(),
        bk_value: "/lists/hd.txt".to_string(),
        ref_value: "ref1".to_string(),
        rows_num: 2,
        outdir: "/out".to_string(),
        excludefile: "/lists/ex.txt".to_string(),
        tstrun,
        hourmust: true,
        datemust: true,
    }
}

fn row(rowid: u64, name: &str, dir: &str, md5: Option<&str>) -> Bkup {
    Bkup {
        rowid,
        refname: "ref1".to_string(),
        filename: name.to_string(),
        dirname: dir.to_string(),
        filesize: 10,
        filedate: "2023-01-05 12:34:56".to_string(),
        md5sum: md5.map(|m| m.to_string()),
        locations: None,
        notes: None,
    }
}

fn lines(ls: &[&str]) -> Vec<String> {
    ls.iter().map(|s| s.to_string()).collect()
}

#[test]
fn full_run_in_update_mode() {
    let (mut run, act) = ExecRun::new(params(false));
    match act {
        ExecAction::ReadExclusions(p) => assert_eq!(p, "/lists/ex.txt"),
        _ => panic!("expected ReadExclusions"),
    }
    match run.step(ExecReply::Exclusions(ListFile::Read(lines(&[" tmp \n"]), None))) {
        ExecAction::OpenDatabase { path, check } => {
            assert_eq!(path, "/db/backup.db3");
            assert!(check);
        }
        _ => panic!("expected OpenDatabase"),
    }
    assert_eq!(run.exclusions, vec!["tmp".to_string()]);
    match run.step(ExecReply::Opened(None)) {
        ExecAction::ProbeErrorFile(p) => assert_eq!(p, "/out/generrors01.errout"),
        _ => panic!("expected probe"),
    }
    match run.step(ExecReply::Probed(true)) {
        ExecAction::ProbeErrorFile(p) => assert_eq!(p, "/out/generrors02.errout"),
        _ => panic!("expected probe"),
    }
    match run.step(ExecReply::Probed(false)) {
        ExecAction::Begin { excluded, noentries, errors, listing, refname } => {
            assert_eq!(excluded, "/out/excluded02.excout");
            assert_eq!(noentries, "/out/noentries02.neout");
            assert_eq!(errors, "/out/generrors02.errout");
            assert_eq!(listing, "/lists/hd.txt");
            assert_eq!(refname, "ref1");
        }
        _ => panic!("expected Begin"),
    }
    let rows = vec![row(5, "a.txt", "/d", None)];
    assert!(matches!(run.step(ExecReply::Entries(QueryReply::Rows(rows))), ExecAction::ReadLine));
    match run.step(ExecReply::Line("a.txt|10|2023-01-05 12:34:56|/d|ref1|abc\n".to_string())) {
        ExecAction::Apply(v) => {
            assert_eq!(v.notes, vec!["md5sum is null for a.txt".to_string()]);
            let u = v.update.unwrap();
            assert_eq!((u.rowid, u.md5), (5, Some("abc\n".to_string())));
        }
        _ => panic!("expected Apply"),
    }
    assert!(matches!(run.step(ExecReply::Applied), ExecAction::ReadLine));
    match run.step(ExecReply::Line("b.txt|10|x|/tmp/q|ref1|abc\n".to_string())) {
        ExecAction::Apply(v) => assert_eq!(v.excluded, Some("/tmp/q|b.txt|10|x|/tmp/q|ref1|abc\n".to_string())),
        _ => panic!("expected Apply"),
    }
    run.step(ExecReply::Applied);
    match run.step(ExecReply::EndOfFile) {
        ExecAction::Finish { result, say } => {
            assert_eq!((result.errcd, result.errval), (0, "test of exec ".to_string()));
            assert!(say.is_none());
        }
        _ => panic!("expected Finish"),
    }
}

#[test]
fn exclusion_file_problems() {
    let (mut run, _) = ExecRun::new(params(true));
    match run.step(ExecReply::Exclusions(ListFile::Read(vec![], None))) {
        ExecAction::OpenDatabase { check, .. } => assert!(!check),
        _ => panic!("expected OpenDatabase"),
    }
    match run.step(ExecReply::Opened(None)) {
        ExecAction::Finish { result, .. } => {
            assert_eq!((result.errcd, result.errval), (2, "exclusion file /lists/ex.txt has no records".to_string()))
        }
        _ => panic!("expected Finish"),
    }
    let (mut run2, _) = ExecRun::new(params(true));
    run2.step(ExecReply::Exclusions(ListFile::Read(lines(&["a\n"]), Some("bad data".to_string()))));
    match run2.step(ExecReply::Opened(None)) {
        ExecAction::Finish { result, .. } => {
            assert_eq!((result.errcd, result.errval), (1, "error of bad data reading exclude list ".to_string()))
        }
        _ => panic!("expected Finish"),
    }
    let (mut run3, _) = ExecRun::new(params(true));
    run3.step(ExecReply::Exclusions(ListFile::Missing));
    assert!(!run3.bexclusion);
    match run3.step(ExecReply::Opened(Some("not a database".to_string()))) {
        ExecAction::Finish { result, .. } => {
            assert_eq!((result.errcd, result.errval), (21, "error in opening db of not a database ".to_string()))
        }
        _ => panic!("expected Finish"),
    }
}

#[test]
fn query_and_read_failures() {
    let start = || {
        let (mut run, _) = ExecRun::new(params(true));
        run.step(ExecReply::Exclusions(ListFile::Missing));
        run.step(ExecReply::Opened(None));
        run.step(ExecReply::Probed(false));
        run
    };
    let mut a = start();
    match a.step(ExecReply::Entries(QueryReply::PrepareFailed(SqlError { shown: "no table".to_string(), debug: "D".to_string() }))) {
        ExecAction::Finish { result, say } => {
            assert_eq!(result.errcd, 0);
            assert_eq!(say, Some("sql call bb update error no table".to_string()));
        }
        _ => panic!("expected Finish"),
    }
    let mut b = start();
    match b.step(ExecReply::Entries(QueryReply::QueryFailed(SqlError { shown: "bad".to_string(), debug: "D".to_string() }))) {
        ExecAction::Finish { say, .. } => assert_eq!(say, Some("sql call ba update error bad".to_string())),
        _ => panic!("expected Finish"),
    }
    let mut c = start();
    c.step(ExecReply::Entries(QueryReply::Rows(vec![])));
    match c.step(ExecReply::ReadFailed("stream did not contain valid UTF-8".to_string())) {
        ExecAction::Finish { result, .. } => assert_eq!(
            (result.errcd, result.errval),
            (1, "error of stream did not contain valid UTF-8 reading input file ".to_string())
        ),
        _ => panic!("expected Finish"),
    }
    let mut d = start();
    d.step(ExecReply::Entries(QueryReply::Rows(vec![])));
    assert!(matches!(d.step(ExecReply::Line("a|b\n".to_string())), ExecAction::Stop(LineFault::TooFewFields)));
}

#[test]
fn run_without_exclusions_excludes_nothing() {
    let (mut run, _) = ExecRun::new(params(true));
    run.step(ExecReply::Exclusions(ListFile::Missing));
    run.step(ExecReply::Opened(None));
    run.step(ExecReply::Probed(false));
    run.step(ExecReply::Entries(QueryReply::Rows(vec![row(1, "a.txt", "/tmp", Some("m"))])));
    match run.step(ExecReply::Line("a.txt|10|2023-01-05 12:34:56|/tmp|ref1|m".to_string())) {
        ExecAction::Apply(v) => {
            assert!(v.excluded.is_none());
            assert_eq!(v.notes, vec!["md5sum same m for a.txt".to_string()]);
        }
        _ => panic!("expected Apply"),
    }
    assert!(matches!(run.step(ExecReply::Probed(true)), ExecAction::Nothing));
}

#[test]
fn failed_run_code_is_kept() {
    let (mut run, _) = ExecRun::new(params(false));
    run.step(ExecReply::Exclusions(ListFile::Read(vec![], Some("io".to_string()))));
    assert_eq!(run.errcode, 2);
    assert!(!run.bolok);
    // A failed run does not check the database and does not recover.
    run.step(ExecReply::Opened(Some("ignored".to_string())));
    assert_eq!(run.errcode, 2);
    assert!(!run.bolok);
    assert!(matches!(run.step(ExecReply::Probed(false)), ExecAction::Nothing));
}
