use ora_targets::ora_sql::detect::{
    compile_scan_pattern, find_sids_by_processes, insert_sid, scan_processes, sid_of_capture,
    trailing_token, ScanError, SID_MASK,
};

const TWO_GROUPS: &str = "(asm_pmon_|ora_pmon_|xe_pmon_|db_pmon_)(.+)$";

fn process(args: &[&str]) -> Vec<String> {
    args.iter().map(|a| a.to_string()).collect()
}

#[test]
fn trailing_token_is_what_follows_the_last_space() {
    assert_eq!(trailing_token("ora_pmon_FREE"), "ora_pmon_FREE");
    assert_eq!(trailing_token("oracle  ora_pmon_FREE"), "ora_pmon_FREE");
    assert_eq!(trailing_token("a b c"), "c");
    assert_eq!(trailing_token("ends with space "), "");
    assert_eq!(trailing_token(" "), "");
    assert_eq!(trailing_token(""), "");
    assert_eq!(trailing_token("ä ö"), "ö");
}

#[test]
fn pmon_process_yields_its_sid() {
    let processes = vec![process(&["/u01/app/oracle/bin/ora_pmon_FREE"])];
    let sids = find_sids_by_processes(Some(TWO_GROUPS), &processes).unwrap();
    assert_eq!(sids, vec!["FREE".to_string()]);
}

#[test]
fn pmon_process_without_sid_is_left_out() {
    let processes = vec![process(&["/u01/app/oracle/bin/ora_pmon_"])];
    let sids = find_sids_by_processes(Some(TWO_GROUPS), &processes).unwrap();
    assert!(sids.is_empty());
}

#[test]
fn only_the_last_argument_counts() {
    let processes = vec![
        process(&["ora_pmon_FIRST", "--flag"]),
        process(&["wrapper", "ora_pmon_LAST"]),
        process(&["sh", "-c run ora_pmon_TAIL"]),
    ];
    let sids = find_sids_by_processes(Some("^(ora_pmon_)(.+)$"), &processes).unwrap();
    assert_eq!(sids, vec!["LAST".to_string(), "TAIL".to_string()]);
}

#[test]
fn processes_without_command_line_are_passed_over() {
    let processes = vec![process(&[]), process(&["asm_pmon_+ASM"]), process(&[])];
    let sids = find_sids_by_processes(Some(TWO_GROUPS), &processes).unwrap();
    assert_eq!(sids, vec!["+ASM".to_string()]);
}

#[test]
fn each_sid_is_reported_once() {
    let processes = vec![
        process(&["ora_pmon_A"]),
        process(&["ora_pmon_B"]),
        process(&["xe_pmon_A"]),
        process(&["db_pmon_B"]),
        process(&["ora_pmon_C"]),
    ];
    let sids = find_sids_by_processes(Some(TWO_GROUPS), &processes).unwrap();
    assert_eq!(sids, vec!["A".to_string(), "B".to_string(), "C".to_string()]);
}

#[test]
fn default_pattern_has_no_second_group() {
    let processes = vec![process(&["ora_pmon_FREE"]), process(&["/bin/ora_pmon_FREE"])];
    let sids = find_sids_by_processes(None, &processes).unwrap();
    assert!(sids.is_empty());
    assert_eq!(SID_MASK, "^(asm_pmon_|ora_pmon_|xe_pmon_|db_pmon_)");
}

#[test]
fn pattern_with_one_group_finds_nothing() {
    let processes = vec![process(&["ora_pmon_FREE"])];
    let sids = find_sids_by_processes(Some("(ora_pmon_).+"), &processes).unwrap();
    assert!(sids.is_empty());
}

#[test]
fn no_processes_no_sids() {
    let sids = find_sids_by_processes(Some(TWO_GROUPS), &Vec::new()).unwrap();
    assert!(sids.is_empty());
}

#[test]
fn bad_pattern_is_an_error() {
    let processes = vec![process(&["ora_pmon_FREE"])];
    let result = find_sids_by_processes(Some("(ora_pmon_"), &processes);
    match result {
        Err(ScanError::InvalidPattern(message)) => assert!(!message.is_empty()),
        Ok(_) => panic!("the pattern must not compile"),
    }
    let again = find_sids_by_processes(Some("(ora_pmon_"), &processes).unwrap_err();
    assert!(!again.message().is_empty());
}

#[test]
fn insert_sid_keeps_texts_distinct() {
    let mut found: Vec<String> = Vec::new();
    insert_sid(&mut found, "A".to_string());
    insert_sid(&mut found, "B".to_string());
    insert_sid(&mut found, "A".to_string());
    assert_eq!(found, vec!["A".to_string(), "B".to_string()]);
}

#[test]
fn empty_capture_is_left_out() {
    let processes = vec![
        process(&["/u01/app/oracle/bin/ora_pmon_"]),
        process(&["/u01/app/oracle/bin/ora_pmon_FREE"]),
    ];
    let sids = find_sids_by_processes(Some("(ora_pmon_)(.*)$"), &processes).unwrap();
    assert_eq!(sids, vec!["FREE".to_string()]);
}

#[test]
fn sid_of_capture_drops_only_the_empty_text() {
    assert_eq!(sid_of_capture(Some("FREE".to_string())), Some("FREE".to_string()));
    assert_eq!(sid_of_capture(Some(" ".to_string())), Some(" ".to_string()));
    assert_eq!(sid_of_capture(Some(String::new())), None);
    assert_eq!(sid_of_capture(None), None);
}

#[test]
fn compiled_pattern_scans_like_the_whole_call() {
    let processes = vec![process(&["ora_pmon_A"]), process(&["xe_pmon_B"])];
    let pattern = compile_scan_pattern(Some(TWO_GROUPS)).unwrap();
    assert_eq!(
        scan_processes(&pattern, &processes),
        find_sids_by_processes(Some(TWO_GROUPS), &processes).unwrap()
    );
    assert!(compile_scan_pattern(None).is_ok());
    assert!(compile_scan_pattern(Some("[")).is_err());
}
