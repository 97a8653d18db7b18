use mmss::error::Error;
use mmss::metrics::{CustomMetrics, GeometricMetrics, NamedScalar, Scalar};
use mmss::operator::GeometricOperator;
use mmss::processor::SemanticTaskProcessor;
use mmss::task::{GeometricTaskCommand, TaskStatus};

fn scalar(value: f64) -> Scalar {
    Scalar(value.to_bits())
}

fn value_of(scalar: Scalar) -> f64 {
    f64::from_bits(scalar.0)
}

fn baseline() -> GeometricMetrics {
    let hbar = 1.054_571_817e-34;
    let c = 299_792_458.0;
    let zitter_amplitude = 1.93e-13;
    GeometricMetrics::baseline(
        scalar(0.9997),
        scalar(0.0003),
        scalar(hbar / (2.0 * c * zitter_amplitude)),
        scalar(1.0 / 137.035_999_084),
        scalar(8.9997),
    )
}

fn empty_object() -> serde_json::Value {
    serde_json::Value::Object(serde_json::Map::new())
}

fn command(task_id: Option<u128>) -> GeometricTaskCommand {
    GeometricTaskCommand {
        task_name: "Test Task".to_string(),
        geometric_operator: GeometricOperator::QuaternionRotation,
        target_module: "test_module".to_string(),
        parameters: empty_object(),
        expected_output_metric: "v_geometric".to_string(),
        task_id,
    }
}

// A deterministic engine to test against: a rotation raises the geometric
// potential, every other operator raises the entropy.
fn engine(
    operator: GeometricOperator,
    _parameters: &serde_json::Value,
    previous: &GeometricMetrics,
) -> GeometricMetrics {
    let mut next = previous.clone();
    match operator {
        GeometricOperator::QuaternionRotation => {
            next.v_geometric = scalar(value_of(previous.v_geometric) + 0.01);
        }
        _ => {
            next.s_geometric = scalar(value_of(previous.s_geometric) + 0.5);
        }
    }
    next
}

#[test]
fn test_task_submission() {
    let mut processor = SemanticTaskProcessor::new(baseline());
    let task = command(None);

    let task_id = processor.submit_task(task).unwrap();
    let status = processor.get_task_status(task_id).unwrap();

    assert!(matches!(status, TaskStatus::Pending));
}

#[test]
fn test_task_execution() {
    let mut processor = SemanticTaskProcessor::new(baseline());
    let task = command(None);

    let task_id = processor.submit_task(task).unwrap();
    let result = processor.execute_task(task_id, engine).unwrap();

    assert!(result.success);
    assert!(value_of(result.metrics.v_geometric) > 1.0);

    let status = processor.get_task_status(task_id).unwrap();
    assert!(matches!(status, TaskStatus::Completed(_)));
}

#[test]
fn test_metrics_consistency() {
    let mut processor = SemanticTaskProcessor::new(baseline());
    let initial_metrics = processor.get_metrics();

    let task = command(None);

    let task_id = processor.submit_task(task).unwrap();
    let _ = processor.execute_task(task_id, engine).unwrap();

    let updated_metrics = processor.get_metrics();

    assert!(value_of(updated_metrics.v_geometric) > value_of(initial_metrics.v_geometric));
    assert!(value_of(updated_metrics.s_geometric) >= value_of(initial_metrics.s_geometric));
    assert!(value_of(updated_metrics.q_oscillator) >= value_of(initial_metrics.q_oscillator));
}

#[test]
fn baseline_is_made_of_five_quantities() {
    let metrics = GeometricMetrics::baseline(scalar(1.0), scalar(2.0), scalar(3.0), scalar(4.0), scalar(5.0));
    assert_eq!(value_of(metrics.v_geometric), 1.0);
    assert_eq!(value_of(metrics.quaternion_coherence), 1.0);
    assert_eq!(value_of(metrics.s_geometric), 2.0);
    assert_eq!(value_of(metrics.zitterbewegung_entropy), 2.0);
    assert_eq!(value_of(metrics.emergent_electron_mass), 3.0);
    assert_eq!(value_of(metrics.fine_structure_constant), 4.0);
    assert_eq!(value_of(metrics.q_oscillator), 5.0);
    assert_eq!(value_of(metrics.topological_winding), 5.0);
    assert!(metrics.custom_metrics.entries().is_empty());
}

#[test]
fn a_fresh_manager_shows_its_baseline_and_no_task() {
    let processor = SemanticTaskProcessor::new(baseline());
    assert_eq!(processor.get_metrics(), baseline());
    assert!(processor.list_tasks().is_empty());
    let metrics = processor.get_metrics();
    assert_eq!(value_of(metrics.v_geometric), 0.9997);
    assert_eq!(value_of(metrics.s_geometric), 0.0003);
    assert_eq!(value_of(metrics.q_oscillator), 8.9997);
    assert_eq!(value_of(metrics.topological_winding), 8.9997);
    assert_eq!(value_of(metrics.fine_structure_constant), 1.0 / 137.035_999_084);
}

#[test]
fn a_copy_of_the_metrics_holds_the_additional_quantities() {
    let mut start = baseline();
    assert_eq!(start.custom_metrics.insert("torsion".to_string(), scalar(0.25)), None);
    assert_eq!(start.custom_metrics.insert("shear".to_string(), scalar(-1.5)), None);
    assert_eq!(start.duplicate(), start);
    let processor = SemanticTaskProcessor::new(start.clone());
    let seen = processor.get_metrics();
    assert_eq!(seen, start);
    assert_eq!(seen.custom_metrics.entries().len(), 2);
    assert_eq!(seen.custom_metrics.get("shear"), Some(scalar(-1.5)));
    assert_eq!(seen.custom_metrics.get("torsion"), Some(scalar(0.25)));
    assert_eq!(seen.custom_metrics.get("strain"), None);
}

#[test]
fn additional_quantities_are_a_mapping() {
    let mut custom = CustomMetrics::new();
    assert!(custom.entries().is_empty());
    assert_eq!(custom.get("torsion"), None);
    assert_eq!(custom.insert("torsion".to_string(), scalar(0.25)), None);
    assert_eq!(custom.insert("shear".to_string(), scalar(-1.5)), None);
    assert_eq!(custom.get("torsion"), Some(scalar(0.25)));

    // A name that is there gets the new scalar; no second entry is made.
    assert_eq!(custom.insert("torsion".to_string(), scalar(0.5)), Some(scalar(0.25)));
    assert_eq!(custom.get("torsion"), Some(scalar(0.5)));
    assert_eq!(custom.get("shear"), Some(scalar(-1.5)));
    let mut entries = custom.entries().clone();
    entries.sort_by(|a, b| a.name.cmp(&b.name));
    assert_eq!(
        entries,
        vec![
            NamedScalar { name: "shear".to_string(), value: scalar(-1.5) },
            NamedScalar { name: "torsion".to_string(), value: scalar(0.5) },
        ]
    );

    // Names are told apart character by character.
    assert_eq!(custom.get("Torsion"), None);
    assert_eq!(custom.get(""), None);
    assert_eq!(custom.insert(String::new(), scalar(1.0)), None);
    assert_eq!(custom.get(""), Some(scalar(1.0)));
    assert_eq!(custom.entries().len(), 3);
}

#[test]
fn mappings_are_equal_whatever_the_order() {
    let mut one = CustomMetrics::new();
    one.insert("torsion".to_string(), scalar(0.25));
    one.insert("shear".to_string(), scalar(-1.5));
    let mut other = CustomMetrics::new();
    other.insert("shear".to_string(), scalar(-1.5));
    assert_ne!(one, other);
    assert_ne!(other, one);
    other.insert("torsion".to_string(), scalar(0.25));
    assert_eq!(one, other);
    assert_eq!(one.clone(), one);
    assert_eq!(one.duplicate(), other);
    other.insert("torsion".to_string(), scalar(0.5));
    assert_ne!(one, other);
    assert_eq!(CustomMetrics::new(), CustomMetrics::new());
    assert_ne!(CustomMetrics::new(), one);

    let mut left = baseline();
    let mut right = baseline();
    left.custom_metrics = one;
    assert_ne!(left, right);
    right.custom_metrics.insert("shear".to_string(), scalar(-1.5));
    right.custom_metrics.insert("torsion".to_string(), scalar(0.25));
    assert_eq!(left, right);
}

#[test]
fn a_named_identifier_is_kept() {
    let mut processor = SemanticTaskProcessor::new(baseline());
    assert_eq!(processor.submit_task(command(Some(42))), Ok(42));
    assert_eq!(processor.submit_task_as(7, command(None)), Ok(7));
    assert_eq!(processor.get_task_status(42), Ok(TaskStatus::Pending));
    assert_eq!(processor.get_task_status(7), Ok(TaskStatus::Pending));
}

#[test]
fn a_second_submission_under_an_identifier_is_a_duplicate() {
    let mut processor = SemanticTaskProcessor::new(baseline());
    let id = 0x550e8400_e29b_41d4_a716_446655440000u128;
    assert_eq!(processor.submit_task(command(Some(id))), Ok(id));

    let mut second = command(Some(id));
    second.geometric_operator = GeometricOperator::Zitterbewegung;
    assert_eq!(processor.submit_task(second), Err(Error::DuplicateTaskId(id)));

    // The first task is where it was.
    assert_eq!(processor.get_task_status(id), Ok(TaskStatus::Pending));
    assert_eq!(processor.list_tasks(), vec![(id, TaskStatus::Pending)]);
    assert_eq!(processor.get_metrics(), baseline());

    // And it is still the first command that runs: a rotation.
    let report = processor.execute_task(id, engine).unwrap();
    assert_eq!(value_of(report.metrics.v_geometric), 0.9997 + 0.01);
    assert_eq!(value_of(report.metrics.s_geometric), 0.0003);
}

#[test]
fn a_duplicate_of_a_completed_task_is_refused_too() {
    let mut processor = SemanticTaskProcessor::new(baseline());
    processor.submit_task(command(Some(5))).unwrap();
    let report = processor.execute_task(5, engine).unwrap();
    assert_eq!(processor.submit_task(command(Some(5))), Err(Error::DuplicateTaskId(5)));
    assert_eq!(
        processor.get_task_status(5),
        Ok(TaskStatus::Completed(report.metrics))
    );
}

#[test]
fn random_identifiers_differ_and_have_the_random_form() {
    let mut processor = SemanticTaskProcessor::new(baseline());
    let first = processor.submit_task(command(None)).unwrap();
    let second = processor.submit_task(command(None)).unwrap();
    assert_ne!(first, second);
    for id in [first, second] {
        assert_eq!((id >> 76) & 0xf, 4);
        assert_eq!((id >> 62) & 0x3, 2);
        assert_eq!(uuid::Uuid::from_u128(id).get_version_num(), 4);
    }
    assert_eq!(processor.list_tasks().len(), 2);
}

#[test]
fn an_unknown_identifier_is_an_error_and_leaves_no_trace() {
    let mut processor = SemanticTaskProcessor::new(baseline());
    processor.submit_task(command(Some(1))).unwrap();

    assert_eq!(processor.get_task_status(2), Err(Error::TaskNotFound(2)));
    let mut asked = false;
    let answer = processor.execute_task(2, |operator, parameters, previous| {
        asked = true;
        engine(operator, parameters, previous)
    });
    assert_eq!(answer, Err(Error::TaskNotFound(2)));
    assert!(!asked);

    assert_eq!(processor.get_task_status(2), Err(Error::TaskNotFound(2)));
    assert_eq!(processor.list_tasks(), vec![(1, TaskStatus::Pending)]);
    assert_eq!(processor.get_metrics(), baseline());
}

#[test]
fn an_unknown_identifier_on_an_empty_manager() {
    let mut processor = SemanticTaskProcessor::new(baseline());
    assert_eq!(processor.get_task_status(0), Err(Error::TaskNotFound(0)));
    assert_eq!(processor.execute_task(0, engine), Err(Error::TaskNotFound(0)));
    assert!(processor.list_tasks().is_empty());
}

#[test]
fn end_to_end() {
    let mut processor = SemanticTaskProcessor::new(baseline());
    let task_id = processor.submit_task(command(None)).unwrap();
    let report = processor.execute_task(task_id, engine).unwrap();

    let listing = processor.list_tasks();
    assert_eq!(listing.len(), 1);
    assert_eq!(listing[0].0, task_id);
    let metrics = processor.get_metrics();
    assert_eq!(listing[0].1, TaskStatus::Completed(metrics.clone()));
    assert_eq!(report.metrics, metrics);
    assert_eq!(report.task_id, task_id);
    assert!(report.success);
    assert_eq!(report.error, None);
}

#[test]
fn the_report_says_completed() {
    let mut processor = SemanticTaskProcessor::new(baseline());
    processor.submit_task(command(Some(9))).unwrap();
    let report = processor.execute_task(9, engine).unwrap();
    let mut expected = serde_json::Map::new();
    expected.insert(
        "status".to_string(),
        serde_json::Value::String("completed".to_string()),
    );
    assert_eq!(report.output, serde_json::Value::Object(expected));
}

#[test]
fn the_engine_gets_the_operator_the_parameters_and_the_current_metrics() {
    let mut processor = SemanticTaskProcessor::new(baseline());
    let mut task = command(Some(3));
    task.geometric_operator = GeometricOperator::SemanticSynthesis;
    let mut parameters = serde_json::Map::new();
    parameters.insert("depth".to_string(), serde_json::Value::from(4));
    task.parameters = serde_json::Value::Object(parameters.clone());
    processor.submit_task(task).unwrap();

    let mut seen = None;
    let report = processor
        .execute_task(3, |operator, parameters, previous| {
            seen = Some((operator, parameters.clone(), previous.clone()));
            engine(operator, parameters, previous)
        })
        .unwrap();
    assert_eq!(
        seen,
        Some((
            GeometricOperator::SemanticSynthesis,
            serde_json::Value::Object(parameters),
            baseline()
        ))
    );
    assert_eq!(value_of(report.metrics.s_geometric), 0.0003 + 0.5);
    assert_eq!(value_of(report.metrics.v_geometric), 0.9997);
}

#[test]
fn executions_compound_and_completed_tasks_keep_their_own_metrics() {
    let mut processor = SemanticTaskProcessor::new(baseline());
    processor.submit_task(command(Some(1))).unwrap();
    processor.submit_task(command(Some(2))).unwrap();

    let first = processor.execute_task(1, engine).unwrap();
    assert_eq!(value_of(first.metrics.v_geometric), 0.9997 + 0.01);
    assert_eq!(processor.get_task_status(2), Ok(TaskStatus::Pending));

    let second = processor.execute_task(2, engine).unwrap();
    assert_eq!(value_of(second.metrics.v_geometric), 0.9997 + 0.01 + 0.01);

    assert_eq!(processor.get_metrics(), second.metrics);
    assert_eq!(
        processor.get_task_status(1),
        Ok(TaskStatus::Completed(first.metrics))
    );
    assert_eq!(
        processor.get_task_status(2),
        Ok(TaskStatus::Completed(second.metrics))
    );
}

#[test]
fn a_task_can_be_executed_again() {
    let mut processor = SemanticTaskProcessor::new(baseline());
    processor.submit_task(command(Some(1))).unwrap();
    processor.execute_task(1, engine).unwrap();
    let again = processor.execute_task(1, engine).unwrap();
    assert_eq!(value_of(again.metrics.v_geometric), 0.9997 + 0.01 + 0.01);
    assert_eq!(
        processor.get_task_status(1),
        Ok(TaskStatus::Completed(again.metrics))
    );
    assert_eq!(processor.list_tasks().len(), 1);
}

#[test]
fn a_listing_shows_every_task_once() {
    let mut processor = SemanticTaskProcessor::new(baseline());
    for id in [10u128, 20, 30] {
        processor.submit_task(command(Some(id))).unwrap();
    }
    let report = processor.execute_task(20, engine).unwrap();
    let mut listing = processor.list_tasks();
    listing.sort_by_key(|entry| entry.0);
    assert_eq!(
        listing,
        vec![
            (10, TaskStatus::Pending),
            (20, TaskStatus::Completed(report.metrics)),
            (30, TaskStatus::Pending),
        ]
    );
}

#[test]
fn a_status_is_copied_as_it_is() {
    let failed = TaskStatus::Failed("no rotor".to_string());
    assert_eq!(failed.duplicate(), failed);
    let done = TaskStatus::Completed(baseline());
    assert_eq!(done.duplicate(), done);
    assert_eq!(TaskStatus::Pending.duplicate(), TaskStatus::Pending);
    assert_eq!(TaskStatus::InProgress.duplicate(), TaskStatus::InProgress);
}

#[test]
fn failures_in_words() {
    let id = 0xa1a2a3a4_b1b2_c1c2_d1d2_d3d4d5d6d7d8u128;
    assert_eq!(
        Error::DuplicateTaskId(id).message(),
        "Task execution failed: Task with ID a1a2a3a4-b1b2-c1c2-d1d2-d3d4d5d6d7d8 already exists"
    );
    assert_eq!(
        Error::TaskNotFound(id).message(),
        "Task execution failed: Task with ID a1a2a3a4-b1b2-c1c2-d1d2-d3d4d5d6d7d8 not found"
    );
    assert_eq!(
        Error::TaskNotFound(0).message(),
        "Task execution failed: Task with ID 00000000-0000-0000-0000-000000000000 not found"
    );
    assert_eq!(
        Error::TaskNotFound(u128::MAX).message(),
        "Task execution failed: Task with ID ffffffff-ffff-ffff-ffff-ffffffffffff not found"
    );
    assert_eq!(
        Error::TaskNotFound(0x0123456789abcdef_fedcba9876543210).message(),
        "Task execution failed: Task with ID 01234567-89ab-cdef-fedc-ba9876543210 not found"
    );
    assert_eq!(
        Error::TaskExecution("Failed to access task storage".to_string()).message(),
        "Task execution failed: Failed to access task storage"
    );
    assert_eq!(
        Error::InvalidParameter("angle".to_string(), "not a number".to_string()).message(),
        "Invalid parameter 'angle': not a number"
    );
    assert_eq!(
        Error::LlmCommunication("Missing MISTRAL_API_KEY".to_string()).message(),
        "LLM communication error: Missing MISTRAL_API_KEY"
    );
    assert_eq!(
        Error::Serialization("expected value".to_string()).message(),
        "Serialization error: expected value"
    );
    assert_eq!(Error::Io("disk full".to_string()).message(), "I/O error: disk full");
    assert_eq!(Error::Other("anything".to_string()).message(), "anything");
}
