use ora_targets::ora_sql::spots::{
    make_spot_work_results, ClosedSpot, InstanceInfo, OpenedSpot, Section, SectionAnswer,
    WorkInstance, WorkInstances, _make_closed_error, _make_closed_ok, make_section_works,
};
use ora_targets::ora_sql::types::{Target, TargetIdBuilder};
use ora_targets::types::{
    Authentication, HostName, InstanceAlias, InstanceName, Port, ServiceName, SqlQuery,
};

fn target(service: &str) -> Target {
    Target {
        host: HostName::from("localhost"),
        port: Port(1521),
        auth: Authentication::default(),
        target_id: TargetIdBuilder::new()
            .service_name(Some(&ServiceName::from(service)))
            .build(),
    }
}

fn sections(headers: &[&str]) -> Vec<Section> {
    headers.iter().map(|h| Section { header: h.to_string() }).collect()
}

fn answer(suitable: bool, queries: Option<&[&str]>) -> SectionAnswer {
    SectionAnswer {
        suitable,
        queries: queries.map(|qs| qs.iter().map(|q| SqlQuery::new(q)).collect()),
    }
}

fn instance(name: &str, answers: Option<Vec<SectionAnswer>>) -> WorkInstance {
    WorkInstance {
        name: InstanceName::from(name),
        info: answers.map(|answers| InstanceInfo { answers }),
    }
}

fn closed(service: &str) -> ClosedSpot {
    OpenedSpot::new(target(service), Err(String::new())).close().0
}

fn texts(work: &(Vec<SqlQuery>, String)) -> (Vec<String>, String) {
    (work.0.iter().map(|q| q.as_str().to_string()).collect(), work.1.clone())
}

#[test]
fn section_works_keep_suitable_sections_with_queries() {
    let info = InstanceInfo {
        answers: vec![
            answer(true, Some(&["select 1", "select 2"])),
            answer(false, Some(&["select 3"])),
            answer(true, None),
            answer(true, Some(&[])),
        ],
    };
    let works = make_section_works(&sections(&["a", "b", "c", "d"]), info);
    let got: Vec<(Vec<String>, String)> = works.iter().map(texts).collect();
    assert_eq!(
        got,
        vec![
            (vec!["select 1".to_string(), "select 2".to_string()], "a".to_string()),
            (vec![], "d".to_string()),
        ]
    );
}

#[test]
fn section_works_stop_where_answers_or_sections_end() {
    let short = InstanceInfo { answers: vec![answer(true, Some(&["q0"]))] };
    let works = make_section_works(&sections(&["a", "b"]), short);
    assert_eq!(works.len(), 1);
    assert_eq!(works[0].1, "a");

    let long = InstanceInfo {
        answers: vec![answer(true, Some(&["q0"])), answer(true, Some(&["q1"]))],
    };
    let works = make_section_works(&sections(&["a"]), long);
    assert_eq!(works.len(), 1);
    assert_eq!(texts(&works[0]), (vec!["q0".to_string()], "a".to_string()));

    let none = InstanceInfo { answers: vec![answer(true, Some(&["q0"]))] };
    assert!(make_section_works(&sections(&[]), none).is_empty());
}

#[test]
fn closed_ok_passes_over_instances_without_info() {
    let instances = WorkInstances {
        entries: vec![
            instance("one", Some(vec![answer(true, Some(&["q1"]))])),
            instance("two", None),
            instance("three", Some(vec![answer(false, Some(&["q3"]))])),
        ],
    };
    let (spot, result) = _make_closed_ok(closed("svc"), instances, &sections(&["s"]));
    assert_eq!(spot.target().display_name(), "SVC");
    let works = result.unwrap();
    assert_eq!(works.len(), 2);
    assert_eq!(works[0].0.to_string(), "ONE");
    assert_eq!(works[0].1.len(), 1);
    assert_eq!(texts(&works[0].1[0]), (vec!["q1".to_string()], "s".to_string()));
    assert_eq!(works[1].0.to_string(), "THREE");
    assert!(works[1].1.is_empty());
}

#[test]
fn closed_error_reports_the_failure() {
    let (spot, result) = _make_closed_error(closed("orcl"), "OCI Error: ORA-12541: no listener");
    assert_eq!(spot.target().display_name(), "ORCL");
    assert_eq!(
        result.unwrap_err(),
        "REMOTE_INSTANCE_ORCL|FAILURE|WARNING: ORA-12541: no listener"
    );
}

#[test]
fn closed_error_uses_the_display_name_of_the_target() {
    let alias = Target {
        host: HostName::from("localhost"),
        port: Port(1521),
        auth: Authentication::default(),
        target_id: TargetIdBuilder::new()
            .alias(Some(&InstanceAlias::from("my_alias")))
            .build(),
    };
    let spot = OpenedSpot::new(alias, Err(String::new())).close().0;
    let (_, result) = _make_closed_error(spot, "timeout");
    assert_eq!(result.unwrap_err(), "REMOTE_INSTANCE_MY_ALIAS|FAILURE|WARNING: timeout");
}

#[test]
fn one_failing_spot_leaves_one_failure() {
    let spots = vec![
        OpenedSpot::new(
            target("first"),
            Ok(WorkInstances {
                entries: vec![instance("i1", Some(vec![answer(true, Some(&["q"]))]))],
            }),
        ),
        OpenedSpot::new(target("second"), Err("OCI Error: broken".to_string())),
        OpenedSpot::new(target("third"), Ok(WorkInstances { entries: vec![] })),
    ];
    let (successes, failures) = make_spot_work_results(spots, sections(&["s"]));
    assert_eq!(failures.len(), 1);
    assert_eq!(failures[0].0.target().display_name(), "SECOND");
    assert_eq!(failures[0].1, "REMOTE_INSTANCE_SECOND|FAILURE|WARNING: broken");
    assert_eq!(successes.len(), 2);
    assert_eq!(successes[0].0.target().display_name(), "FIRST");
    assert_eq!(successes[0].1.len(), 1);
    assert_eq!(successes[0].1[0].0.to_string(), "I1");
    assert_eq!(texts(&successes[0].1[0].1[0]), (vec!["q".to_string()], "s".to_string()));
    assert_eq!(successes[1].0.target().display_name(), "THIRD");
    assert!(successes[1].1.is_empty());
}

#[test]
fn every_spot_lands_in_one_list() {
    let spots = vec![
        OpenedSpot::new(target("a"), Err("x".to_string())),
        OpenedSpot::new(target("b"), Ok(WorkInstances { entries: vec![] })),
        OpenedSpot::new(target("c"), Err("y".to_string())),
        OpenedSpot::new(target("d"), Ok(WorkInstances { entries: vec![] })),
        OpenedSpot::new(target("e"), Err("z".to_string())),
    ];
    let (successes, failures) = make_spot_work_results(spots, Vec::new());
    let ok: Vec<String> = successes.iter().map(|s| s.0.target().display_name()).collect();
    let err: Vec<String> = failures.iter().map(|f| f.0.target().display_name()).collect();
    assert_eq!(ok, vec!["B".to_string(), "D".to_string()]);
    assert_eq!(err, vec!["A".to_string(), "C".to_string(), "E".to_string()]);
}

#[test]
fn empty_batch_gives_empty_lists() {
    let (successes, failures) = make_spot_work_results(Vec::new(), sections(&["s"]));
    assert!(successes.is_empty());
    assert!(failures.is_empty());
}
