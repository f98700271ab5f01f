use ora_targets::text::{decimal_string, remove_all};
use ora_targets::types::{InstanceName, Port, ServiceName};

#[test]
fn decimal_of_single_digits() {
    assert_eq!(decimal_string(0), "0");
    assert_eq!(decimal_string(7), "7");
    assert_eq!(decimal_string(9), "9");
}

#[test]
fn decimal_of_longer_numbers() {
    assert_eq!(decimal_string(10), "10");
    assert_eq!(decimal_string(1521), "1521");
    assert_eq!(decimal_string(40000), "40000");
    assert_eq!(decimal_string(u16::MAX), "65535");
}

#[test]
fn remove_all_takes_every_occurrence() {
    assert_eq!(
        remove_all("OCI Error: ORA-12541: OCI Error: no listener", "OCI Error: "),
        "ORA-12541: no listener"
    );
    assert_eq!(remove_all("abcabc", "abc"), "");
    assert_eq!(remove_all("xabcx", "abc"), "xx");
}

#[test]
fn remove_all_leaves_other_text() {
    assert_eq!(remove_all("no listener", "OCI Error: "), "no listener");
    assert_eq!(remove_all("", "abc"), "");
    assert_eq!(remove_all("ab", "abc"), "ab");
    assert_eq!(remove_all("OCI Error:", "OCI Error: "), "OCI Error:");
}

#[test]
fn remove_all_with_empty_pattern_changes_nothing() {
    assert_eq!(remove_all("abc", ""), "abc");
}

#[test]
fn remove_all_scans_from_the_left() {
    assert_eq!(remove_all("aaa", "aa"), "a");
    assert_eq!(remove_all("aabab", "ab"), "a");
    assert_eq!(remove_all("ababa", "aba"), "ba");
}

#[test]
fn remove_all_counts_characters_not_bytes() {
    assert_eq!(remove_all("äöüxäöü", "öü"), "äxä");
}

#[test]
fn instance_name_is_put_in_upper_case() {
    assert_eq!(InstanceName::from("orcl").to_string(), "ORCL");
    assert_eq!(InstanceName::from("Inst1".to_string()).as_str(), "INST1");
    assert_eq!(InstanceName::from("straße").to_string(), "STRASSE");
}

#[test]
fn other_names_keep_their_case() {
    assert_eq!(ServiceName::from("oRcl").to_string(), "oRcl");
    assert_eq!(ServiceName::from("oRcl".to_string()).as_str(), "oRcl");
    assert_eq!(Port(1521).value(), 1521);
}
