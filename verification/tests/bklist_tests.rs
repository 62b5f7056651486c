use bkdbupdate::bklist::{scan_bklist, BkScan};

fn lines(ls: &[&str]) -> Vec<String> {
    ls.iter().map(|s| s.to_string()).collect()
}

#[test]
fn reference_from_first_line() {
    let r = scan_bklist(&lines(&["a|1|d|/x|refA|m\n", "b|2|d|/y|refB|m\n"]), false, &"--".to_string());
    match r {
        BkScan::Counted { reference } => assert_eq!(reference, "refA"),
        _ => panic!("expected Counted"),
    }
}

#[test]
fn empty_listing_keeps_reference() {
    match scan_bklist(&lines(&[]), false, &"old".to_string()) {
        BkScan::Counted { reference } => assert_eq!(reference, "old"),
        _ => panic!("expected Counted"),
    }
    match scan_bklist(&lines(&[]), true, &"old".to_string()) {
        BkScan::ReadError { reference } => assert_eq!(reference, "old"),
        _ => panic!("expected ReadError"),
    }
}

#[test]
fn first_line_shape() {
    assert!(matches!(scan_bklist(&lines(&["a|1|d|/x\n"]), false, &"--".to_string()), BkScan::Short));
    match scan_bklist(&lines(&["a|1|d|/x|refA\n", "b"]), true, &"--".to_string()) {
        BkScan::NotSix { reference } => assert_eq!(reference, "refA\n"),
        _ => panic!("expected NotSix"),
    }
    match scan_bklist(&lines(&["a|1|d|/x|refA|m|extra\n"]), false, &"--".to_string()) {
        BkScan::NotSix { reference } => assert_eq!(reference, "refA"),
        _ => panic!("expected NotSix"),
    }
}

#[test]
fn accumulated_buffer_keeps_first_reference() {
    // The program splits the whole buffer read so far; its fifth field is
    // the first line's, whatever the later lines hold.
    let ls = ["a|1|d|/x|refA|m\n", "b|2\n", "c||||refZ|\n"];
    let mut buffer = String::new();
    for l in ls {
        buffer.push_str(l);
        assert_eq!(buffer.split('|').nth(4), Some("refA"));
    }
    match scan_bklist(&lines(&ls), true, &"--".to_string()) {
        BkScan::ReadError { reference } => assert_eq!(reference, "refA"),
        _ => panic!("expected ReadError"),
    }
}
