use media_pipeline_service::lifecycle::{submit, submit_as, SubmissionError};
use media_pipeline_service::models::PipelineState;
use media_pipeline_service::registry::Registry;
use media_pipeline_service::services::validation::{EngineVerdict, ValidationError};

#[test]
fn submit_then_stop_twice() {
    let mut registry = Registry::new();
    let record = submit(
        &mut registry,
        "src ! sink".to_string(),
        "t".to_string(),
        None,
        &EngineVerdict::Accepted,
    )
    .unwrap();
    assert!(matches!(record.state, PipelineState::Created));
    assert_eq!(record.description, "t");

    assert!(registry.transition(&record.id, PipelineState::Stopped).is_ok());
    assert!(matches!(
        registry.get(&record.id).unwrap().state,
        PipelineState::Stopped
    ));
    assert!(registry.transition(&record.id, PipelineState::Stopped).is_ok());
    assert!(matches!(
        registry.get(&record.id).unwrap().state,
        PipelineState::Stopped
    ));
}

#[test]
fn a_blank_descriptor_is_refused_and_not_stored() {
    let mut registry = Registry::new();
    let result = submit(
        &mut registry,
        "   ".to_string(),
        "t".to_string(),
        None,
        &EngineVerdict::Accepted,
    );
    assert!(matches!(
        result,
        Err(SubmissionError::Invalid(ValidationError::EmptyDescriptor))
    ));
    assert!(registry.list().is_empty());
    assert_eq!(registry.len(), 0);
}

#[test]
fn a_submitted_record_is_found_as_submitted() {
    let mut registry = Registry::new();
    let start = chrono::Utc::now();
    let record = submit(
        &mut registry,
        "souphttpsrc location=https://e.com/a.mp4 ! fakesink".to_string(),
        "probe".to_string(),
        Some("https://e.com/a.mp4".to_string()),
        &EngineVerdict::Accepted,
    )
    .unwrap();
    let found = registry.get(&record.id).unwrap();
    assert_eq!(found.id, record.id);
    assert!(matches!(found.state, PipelineState::Created));
    assert_eq!(
        found.pipeline_string,
        "souphttpsrc location=https://e.com/a.mp4 ! fakesink"
    );
    assert_eq!(found.description, "probe");
    assert_eq!(found.source_url, Some("https://e.com/a.mp4".to_string()));
    assert_eq!(found.created_at, record.created_at);
    let created = chrono::DateTime::parse_from_rfc3339(&found.created_at).unwrap();
    assert!(created >= start);
    assert!(created <= chrono::Utc::now());
}

#[test]
fn fresh_ids_are_hyphenated_and_differ() {
    let mut registry = Registry::new();
    let mut ids: Vec<String> = Vec::new();
    let mut n = 0;
    while n < 20 {
        let record = submit(
            &mut registry,
            format!("src{} ! sink", n),
            "t".to_string(),
            None,
            &EngineVerdict::Accepted,
        )
        .unwrap();
        assert_eq!(record.id.chars().count(), 36);
        assert_eq!(record.id.matches('-').count(), 4);
        assert!(!ids.contains(&record.id));
        ids.push(record.id);
        n += 1;
    }
    assert_eq!(registry.len(), 20);
    let all = registry.list();
    assert_eq!(all.len(), 20);
    for id in &ids {
        assert_eq!(all.iter().filter(|r| &r.id == id).count(), 1);
        assert_eq!(&registry.get(id).unwrap().id, id);
    }
}

#[test]
fn creation_times_do_not_go_back() {
    let mut registry = Registry::new();
    let first = submit(
        &mut registry,
        "a ! b".to_string(),
        "first".to_string(),
        None,
        &EngineVerdict::Accepted,
    )
    .unwrap();
    let second = submit(
        &mut registry,
        "c ! d".to_string(),
        "second".to_string(),
        None,
        &EngineVerdict::Accepted,
    )
    .unwrap();
    let a = chrono::DateTime::parse_from_rfc3339(&first.created_at).unwrap();
    let b = chrono::DateTime::parse_from_rfc3339(&second.created_at).unwrap();
    assert!(a <= b);
}

#[test]
fn each_failure_of_validation_refuses_the_submission() {
    let mut registry = Registry::new();
    let rejected = EngineVerdict::Rejected("no element \"nosuch\"".to_string());

    let result = submit_as(
        &mut registry,
        "id-1".to_string(),
        1704067200000000000,
        "nosuch".to_string(),
        "t".to_string(),
        None,
        &EngineVerdict::Accepted,
    );
    assert!(matches!(
        result,
        Err(SubmissionError::Invalid(ValidationError::MalformedDescriptor))
    ));

    let result = submit_as(
        &mut registry,
        "id-1".to_string(),
        1704067200000000000,
        "nosuch ! sink".to_string(),
        "t".to_string(),
        None,
        &rejected,
    );
    match result {
        Err(e) => {
            assert_eq!(
                e.message(),
                "Invalid pipeline syntax: no element \"nosuch\""
            );
            match e {
                SubmissionError::Invalid(ValidationError::EngineRejected(detail)) => {
                    assert_eq!(detail, "no element \"nosuch\"")
                }
                other => panic!("unexpected error: {:?}", other),
            }
        }
        Ok(record) => panic!("unexpected record: {:?}", record),
    }
    assert!(registry.get("id-1").is_none());
    assert_eq!(registry.len(), 0);
    assert_eq!(registry.latest_instant(), i64::MIN);
}

#[test]
fn submit_as_records_what_it_is_given() {
    let mut registry = Registry::new();
    let record = submit_as(
        &mut registry,
        "id-7".to_string(),
        1726914600000000000,
        "fakesrc ! fakesink".to_string(),
        "seven".to_string(),
        Some("https://e.com/v.webm".to_string()),
        &EngineVerdict::Accepted,
    )
    .unwrap();
    assert_eq!(record.id, "id-7");
    assert_eq!(record.created_at, "2024-09-21T10:30:00+00:00");
    assert_eq!(record.pipeline_string, "fakesrc ! fakesink");
    assert_eq!(record.description, "seven");
    assert_eq!(record.source_url, Some("https://e.com/v.webm".to_string()));
    assert!(matches!(record.state, PipelineState::Created));
    let found = registry.get("id-7").unwrap();
    assert_eq!(found.created_at, "2024-09-21T10:30:00+00:00");
    assert_eq!(found.description, "seven");
}

fn accepted(registry: &mut Registry, id: &str, reading: i64) -> String {
    submit_as(
        registry,
        id.to_string(),
        reading,
        "fakesrc ! fakesink".to_string(),
        "t".to_string(),
        None,
        &EngineVerdict::Accepted,
    )
    .unwrap()
    .created_at
}

#[test]
fn an_id_in_use_is_refused_and_nothing_changes() {
    let mut registry = Registry::new();
    assert_eq!(
        accepted(&mut registry, "id-1", 1000000000),
        "1970-01-01T00:00:01+00:00"
    );
    let result = submit_as(
        &mut registry,
        "id-1".to_string(),
        2000000000,
        "other ! sink".to_string(),
        "second".to_string(),
        None,
        &EngineVerdict::Accepted,
    );
    match result {
        Err(e) => {
            assert_eq!(e.message(), "Pipeline id is already in use");
            assert!(matches!(e, SubmissionError::IdInUse));
        }
        Ok(record) => panic!("unexpected record: {:?}", record),
    }
    let kept = registry.get("id-1").unwrap();
    assert_eq!(kept.pipeline_string, "fakesrc ! fakesink");
    assert_eq!(kept.description, "t");
    assert_eq!(registry.len(), 1);
    assert_eq!(registry.latest_instant(), 1000000000);
}

#[test]
fn an_invalid_submission_is_invalid_whatever_its_id() {
    let mut registry = Registry::new();
    accepted(&mut registry, "id-1", 1000);
    let result = submit_as(
        &mut registry,
        "id-1".to_string(),
        2000,
        "  ".to_string(),
        "second".to_string(),
        None,
        &EngineVerdict::Accepted,
    );
    assert!(matches!(
        result,
        Err(SubmissionError::Invalid(ValidationError::EmptyDescriptor))
    ));
    assert_eq!(registry.latest_instant(), 1000);
}

#[test]
fn creation_times_hold_where_the_clock_is_set_back() {
    let mut registry = Registry::new();
    assert_eq!(
        accepted(&mut registry, "a", 1726914600000000000),
        "2024-09-21T10:30:00+00:00"
    );
    assert_eq!(registry.latest_instant(), 1726914600000000000);
    assert_eq!(
        accepted(&mut registry, "b", 1726914000000000000),
        "2024-09-21T10:30:00+00:00"
    );
    assert_eq!(registry.latest_instant(), 1726914600000000000);
    assert_eq!(
        accepted(&mut registry, "c", 1726914600000000001),
        "2024-09-21T10:30:00.000000001+00:00"
    );
    assert_eq!(registry.latest_instant(), 1726914600000000001);
    assert_eq!(
        accepted(&mut registry, "d", -5),
        "2024-09-21T10:30:00.000000001+00:00"
    );
    assert_eq!(
        accepted(&mut registry, "e", 1726914600555000000),
        "2024-09-21T10:30:00.555+00:00"
    );
}

#[test]
fn every_reading_has_a_creation_time() {
    let mut registry = Registry::new();
    assert_eq!(
        accepted(&mut registry, "a", i64::MIN),
        "1677-09-21T00:12:43.145224192+00:00"
    );
    assert_eq!(registry.latest_instant(), i64::MIN);
    assert_eq!(accepted(&mut registry, "b", 0), "1970-01-01T00:00:00+00:00");
    assert_eq!(
        accepted(&mut registry, "c", i64::MAX),
        "2262-04-11T23:47:16.854775807+00:00"
    );
    assert_eq!(registry.latest_instant(), i64::MAX);
    assert_eq!(
        accepted(&mut registry, "d", 1726914600000000000),
        "2262-04-11T23:47:16.854775807+00:00"
    );
}
