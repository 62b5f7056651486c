use bkdbupdate::events::ListFile;
use bkdbupdate::execrun::Execx;
use bkdbupdate::panel::{
    DateChoice, HourChoice, Message, MessColor, Panel, PanelAction, PanelFault, PanelReply,
    ProgressValue, RunChoice,
};
use bkdbupdate::progstart::{Error, Progstart};

fn chosen(code: u32, msg: &str, path: &str) -> PanelReply {
    PanelReply::Chosen { errcode: code, errstr: msg.to_string(), path: path.to_string() }
}

fn lines(ls: &[&str]) -> Vec<String> {
    ls.iter().map(|s| s.to_string()).collect()
}

fn path_of(a: &PanelAction) -> String {
    match a {
        PanelAction::CheckPath(p) | PanelAction::ChooseFile(p) | PanelAction::ChooseDir(p) | PanelAction::ReadListing(p) | PanelAction::OpenDatabase(p) => p.clone(),
        _ => panic!("no path in action"),
    }
}

#[test]
fn defaults_of_the_switches() {
    assert_eq!(RunChoice::default(), RunChoice::TST);
    assert_eq!(HourChoice::default(), HourChoice::EQL);
    assert_eq!(DateChoice::default(), DateChoice::EQL);
    let p = Panel::new();
    assert_eq!(p.db_value, "--");
    assert_eq!(p.msg_value, "no message");
    assert_eq!(p.mess_color, MessColor::Green);
    assert_eq!(p.progval, ProgressValue::Zero);
}

#[test]
fn choosing_a_listing_reads_it() {
    let mut p = Panel::new();
    p.runchoice_value = RunChoice::UPD;
    let a = p.update(Message::BKPressed);
    assert_eq!(path_of(&a), "--");
    assert_eq!(p.runchoice_value, RunChoice::TST);
    let a = p.resume(PanelReply::Exists(false));
    assert_eq!(path_of(&a), "--");
    let a = p.resume(PanelReply::Exists(false));
    assert!(matches!(a, PanelAction::ChooseFile(_)));
    let a = p.resume(chosen(0, "picked", "/lists/hd.txt"));
    assert_eq!(path_of(&a), "/lists/hd.txt");
    let a = p.resume(PanelReply::Listing(ListFile::Read(lines(&["a|1|d|/x|refA|m\n", "b|1|d|/x|refA|m\n", "c|1|d|/x|refA|m\n"]), None)));
    assert!(matches!(a, PanelAction::Done));
    assert_eq!(p.bk_value, "/lists/hd.txt");
    assert_eq!(p.ref_value, "refA");
    assert_eq!(p.rows_num, 3);
    assert_eq!(p.mess_color, MessColor::Green);
    assert_eq!(p.msg_value, "got bklist with reference name of refA and retrieved its number of rows");
}

#[test]
fn listing_problems() {
    let start = |p: &mut Panel| {
        p.update(Message::BKPressed);
        p.resume(PanelReply::Exists(true));
        p.resume(chosen(0, "picked", "/l.txt"));
    };
    let mut p = Panel::new();
    start(&mut p);
    p.resume(PanelReply::Listing(ListFile::Missing));
    assert_eq!((p.msg_value.as_str(), p.mess_color), ("bklist file does not exist: /l.txt", MessColor::Red));
    let mut q = Panel::new();
    start(&mut q);
    q.resume(PanelReply::Listing(ListFile::Read(lines(&["a|1|d|/x|refA\n"]), None)));
    assert_eq!(q.msg_value, "bklist does not have 6 items per line separated by |");
    assert_eq!(q.ref_value, "refA\n");
    assert_eq!(q.rows_num, 0);
    let mut r = Panel::new();
    start(&mut r);
    r.resume(PanelReply::Listing(ListFile::Read(lines(&["a|1|d|/x|refA|m\n"]), Some("x".to_string()))));
    assert_eq!((r.msg_value.as_str(), r.mess_color), ("error reading bklist ", MessColor::Red));
    let mut s = Panel::new();
    start(&mut s);
    let a = s.resume(PanelReply::Listing(ListFile::Read(lines(&["a|1|d\n"]), None)));
    assert!(matches!(a, PanelAction::Stop(PanelFault::BklistFirstLineShort)));
    let mut t = Panel::new();
    t.update(Message::BKPressed);
    t.resume(PanelReply::Exists(true));
    t.resume(chosen(3, "cancelled", ""));
    assert_eq!((t.msg_value.as_str(), t.mess_color), ("cancelled", MessColor::Red));
}

#[test]
fn choosing_a_database() {
    let mut p = Panel::new();
    p.bk_value = "/lists/hd.txt".to_string();
    p.update(Message::DBPressed);
    let a = p.resume(PanelReply::Exists(false));
    assert_eq!(path_of(&a), "/lists/hd.txt");
    let a = p.resume(PanelReply::Exists(true));
    assert_eq!(path_of(&a), "/lists/hd.txt");
    let a = p.resume(chosen(0, "db picked", "/db/b.db3"));
    assert_eq!(path_of(&a), "/db/b.db3");
    let a = p.resume(PanelReply::DbChecked(None));
    assert!(matches!(a, PanelAction::UseDatabase));
    assert_eq!(p.db_value, "/db/b.db3");
    assert_eq!(p.msg_value, "db picked");
    let mut q = Panel::new();
    q.update(Message::DBPressed);
    q.resume(PanelReply::Exists(true));
    q.resume(chosen(0, "db picked", "/db/c.db3"));
    q.resume(PanelReply::DbChecked(Some("file is not a database".to_string())));
    assert_eq!(q.db_value, "--");
    assert_eq!((q.msg_value.as_str(), q.mess_color), ("data base error: file is not a database", MessColor::Red));
}

#[test]
fn exclusion_file_needs_the_box() {
    let mut p = Panel::new();
    assert!(matches!(p.update(Message::EXPressed), PanelAction::Done));
    assert_eq!(p.msg_value, "The checkbox is not check for having exclude file");
    p.update(Message::CheckExclude(true));
    assert!(p.haveexclude);
    let a = p.update(Message::ExecPressed);
    assert!(matches!(a, PanelAction::Done));
    assert_eq!(p.msg_value, "Have exclude file check box check, but no exclude file");
    p.update(Message::EXPressed);
    p.resume(PanelReply::Exists(true));
    p.resume(chosen(0, "ex picked", "/lists/ex.txt"));
    assert_eq!(p.exclude_value, "/lists/ex.txt");
    p.update(Message::CheckExclude(false));
    assert_eq!(p.exclude_value, "--");
    assert!(!p.haveexclude);
}

#[test]
fn output_directory_from_listing_parent() {
    let mut p = Panel::new();
    p.bk_value = "/lists/sub/hd.txt".to_string();
    p.update(Message::OutdirPressed);
    p.resume(PanelReply::Exists(false));
    let a = p.resume(PanelReply::Exists(true));
    assert_eq!(path_of(&a), "/lists/sub");
    p.resume(chosen(0, "dir picked", "/out"));
    assert_eq!(p.outdir_value, "/out");
    let mut q = Panel::new();
    q.bk_value = "/".to_string();
    q.update(Message::OutdirPressed);
    q.resume(PanelReply::Exists(false));
    assert!(matches!(q.resume(PanelReply::Exists(true)), PanelAction::Stop(PanelFault::NoParentDirectory)));
}

#[test]
fn exec_runs_checks_then_starts() {
    let mut p = Panel::new();
    p.bk_value = "/l.txt".to_string();
    p.rows_num = 4;
    p.runchoice_value = RunChoice::UPD;
    p.hourchoice_value = HourChoice::DIF;
    match p.update(Message::ExecPressed) {
        PanelAction::RunChecks(c) => {
            assert_eq!((c.hd_value.as_str(), c.rows_num, c.excludefile.as_str()), ("/l.txt", 4, "--"));
        }
        _ => panic!("expected RunChecks"),
    }
    match p.resume(PanelReply::Pressed { errcode: 0, errstring: "all good".to_string() }) {
        PanelAction::StartRun(r) => {
            assert!(!r.tstrun && !r.hourmust && r.datemust);
            assert_eq!(r.bk_value, "/l.txt");
        }
        _ => panic!("expected StartRun"),
    }
    p.update(Message::ExecPressed);
    assert!(matches!(p.resume(PanelReply::Pressed { errcode: 13, errstring: "rows".to_string() }), PanelAction::Done));
    assert_eq!((p.msg_value.as_str(), p.mess_color), ("rows", MessColor::Red));
}

#[test]
fn switches_and_results() {
    let mut p = Panel::new();
    p.update(Message::RunRadioSelected(RunChoice::UPD));
    assert_eq!(p.msg_value, "choice update selected");
    p.update(Message::HourRadioSelected(HourChoice::DIF));
    assert_eq!(p.msg_value, "choice hour different selected");
    p.update(Message::DateRadioSelected(DateChoice::EQL));
    assert_eq!(p.msg_value, "choice date equal selected");
    p.do_progress = true;
    p.update(Message::ExecxFound(Ok(Execx { errcd: 0, errval: "done".to_string() })));
    assert_eq!((p.msg_value.as_str(), p.progval, p.do_progress), ("done", ProgressValue::Full, false));
    p.update(Message::ExecxFound(Err(Error::Failed)));
    assert_eq!(p.msg_value, "error in Execx execit routine");
    p.update(Message::ProgRtn(Err(Error::Failed)));
    assert_eq!(p.msg_value, "error in Progstart::pstart routine");
}

#[test]
fn progress_reports() {
    let mut p = Panel::new();
    assert!(matches!(p.update(Message::ProgressPressed), PanelAction::StartProgress { secs: 0, say: None }));
    assert!(matches!(p.update(Message::ProgRtn(Progstart::pstart(0))), PanelAction::DrainProgress));
    let a = p.resume(PanelReply::Drained(Some("Progress|3|12|copying".to_string())));
    assert!(matches!(a, PanelAction::StartProgress { secs: 5, say: None }));
    assert_eq!(p.progval, ProgressValue::Ratio(3, 12));
    assert_eq!(p.msg_value, "Test run progress: 3 of 12  copying");
    assert_eq!(p.mess_color, MessColor::Blue);
    p.update(Message::ProgRtn(Progstart::pstart(5)));
    match p.resume(PanelReply::Drained(Some("Progress|x|12|copying".to_string()))) {
        PanelAction::StartProgress { say, .. } => assert_eq!(say, Some("progress numeric not numeric: Progress|x|12|copying".to_string())),
        _ => panic!("expected StartProgress"),
    }
    p.update(Message::ProgRtn(Progstart::pstart(5)));
    match p.resume(PanelReply::Drained(Some("hello".to_string()))) {
        PanelAction::StartProgress { say, .. } => assert_eq!(say, Some("message not progress: hello".to_string())),
        _ => panic!("expected StartProgress"),
    }
    p.do_progress = false;
    assert!(matches!(p.update(Message::ProgRtn(Progstart::pstart(5))), PanelAction::Done));
}

#[test]
fn new_input_resets_switches() {
    for m in [Message::BKPressed, Message::DBPressed, Message::OutdirPressed] {
        let mut p = Panel::new();
        p.runchoice_value = RunChoice::UPD;
        p.hourchoice_value = HourChoice::DIF;
        p.datechoice_value = DateChoice::DIF;
        p.update(m);
        assert_eq!((p.runchoice_value, p.hourchoice_value, p.datechoice_value), (RunChoice::TST, HourChoice::EQL, DateChoice::EQL));
    }
}
