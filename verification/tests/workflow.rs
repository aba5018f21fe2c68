//! Workflows and their validation.
use std::collections::BTreeMap;

use rote::data::{DataSourceConfig, Delimiter};
use rote::time::Delay;
use rote::workflow::{
    EmptyCellRule, PlaybackSpeed, Resolution, Selector, Step, ValueSource, Workflow, WorkflowError,
};

#[test]
fn playback_speed_default() {
    assert_eq!(PlaybackSpeed::default(), PlaybackSpeed::Step);
}

fn sample_workflow() -> Workflow {
    let mut rules = BTreeMap::new();
    rules.insert(1, EmptyCellRule::Skip);

    Workflow::new(
        3,
        vec![
            Step::WaitForNavigation,
            Step::Click {
                selector: Selector {
                    strategies: vec![Resolution::Id {
                        id: "name-field".to_owned(),
                    }],
                    tag: "INPUT".to_owned(),
                },
                navigation: None,
            },
            Step::Type {
                selector: Selector {
                    strategies: vec![
                        Resolution::Id {
                            id: "name-field".to_owned(),
                        },
                        Resolution::Css {
                            selector: "#name-field".to_owned(),
                        },
                    ],
                    tag: "INPUT".to_owned(),
                },
                source: ValueSource::Column { index: 0 },
                navigation: None,
            },
            Step::Type {
                selector: Selector {
                    strategies: vec![Resolution::Css {
                        selector: "#age-field".to_owned(),
                    }],
                    tag: "INPUT".to_owned(),
                },
                source: ValueSource::Column { index: 1 },
                navigation: None,
            },
            Step::Click {
                selector: Selector {
                    strategies: vec![Resolution::TextContent {
                        text: "Submit".to_owned(),
                    }],
                    tag: "BUTTON".to_owned(),
                },
                navigation: None,
            },
        ],
        vec![
            Delay::zero(),
            Delay::from_millis(500),
            Delay::from_millis(300),
            Delay::from_millis(400),
            Delay::from_millis(200),
        ],
        Delay::from_millis(150),
        vec![Some(2), Some(3), None],
        rules,
        Some(DataSourceConfig::file("data.tsv", Delimiter::Tab, true)),
    )
}

#[test]
fn sample_workflow_is_valid() {
    let workflow = sample_workflow();
    assert_eq!(workflow.version, 2);
    assert_eq!(workflow.validate(), Ok(()));
    assert_eq!(workflow.clone(), workflow);
}

#[test]
fn workflow_unsupported_version() {
    let mut workflow = sample_workflow();
    workflow.version = 999;
    let err = workflow.validate().unwrap_err();
    assert!(err.message().contains("unsupported workflow version"));
}

#[test]
fn an_older_version_is_unsupported_too() {
    let mut workflow = sample_workflow();
    workflow.version = 1;
    workflow.step_delays = vec![];
    let err = workflow.validate().unwrap_err();
    assert_eq!(err, WorkflowError::UnsupportedVersion { found: 1, max: 2 });
    assert_eq!(err.message(), "unsupported workflow version: 1 (max supported: 2)");
}

#[test]
fn only_the_outdated_and_newer_versions_are_unsupported() {
    let mut workflow = sample_workflow();
    for (version, supported) in [(0, true), (1, false), (2, true), (3, false), (u32::MAX, false)] {
        workflow.version = version;
        assert_eq!(workflow.validate().is_ok(), supported, "version {version}");
    }
}

#[test]
fn workflow_invalid_binding() {
    let workflow = Workflow {
        version: 2,
        column_count: 1,
        steps: vec![],
        step_delays: vec![],
        row_end_delay: Delay::zero(),
        column_bindings: vec![Some(5)],
        empty_cell_rules: BTreeMap::new(),
        data_source: None,
    };
    let err = workflow.validate().unwrap_err();
    assert!(err.message().contains("column binding references step 5"));
    assert_eq!(
        err.message(),
        "column binding references step 5, but only 0 steps exist",
    );
}

#[test]
fn workflow_invalid_empty_cell_rule() {
    let mut rules = BTreeMap::new();
    rules.insert(10, EmptyCellRule::Clear);
    let workflow = Workflow {
        version: 2,
        column_count: 2,
        steps: vec![],
        step_delays: vec![],
        row_end_delay: Delay::zero(),
        column_bindings: vec![None, None],
        empty_cell_rules: rules,
        data_source: None,
    };
    let err = workflow.validate().unwrap_err();
    assert!(
        err.message()
            .contains("empty cell rule references column 10")
    );
}

#[test]
fn the_lowest_column_without_a_place_is_reported() {
    let mut workflow = sample_workflow();
    for column in [30, 7, 2, 12] {
        workflow.empty_cell_rules.insert(column, EmptyCellRule::Clear);
    }
    assert_eq!(
        workflow.validate(),
        Err(WorkflowError::InvalidEmptyCellRule { column: 7, column_count: 3 }),
    );
}

#[test]
fn workflow_column_binding_length_mismatch() {
    let workflow = Workflow {
        version: 2,
        column_count: 3,
        steps: vec![],
        step_delays: vec![],
        row_end_delay: Delay::zero(),
        column_bindings: vec![None, None], // length 2, but column_count is 3
        empty_cell_rules: BTreeMap::new(),
        data_source: None,
    };
    let err = workflow.validate().unwrap_err();
    assert!(
        err.message().contains("column_bindings has 2 entries"),
        "unexpected error: {err:?}",
    );
}

#[test]
fn workflow_binding_not_type_step() {
    let click = Step::Click {
        selector: Selector {
            strategies: vec![],
            tag: "BUTTON".to_owned(),
        },
        navigation: None,
    };
    let workflow = Workflow {
        version: 2,
        column_count: 1,
        steps: vec![click],
        step_delays: vec![Delay::zero()],
        row_end_delay: Delay::zero(),
        column_bindings: vec![Some(0)], // bound to a Click step, not Type
        empty_cell_rules: BTreeMap::new(),
        data_source: None,
    };
    let err = workflow.validate().unwrap_err();
    assert!(
        err.message().contains("not a Type step"),
        "unexpected error: {err:?}",
    );
}

#[test]
fn workflow_delay_length_mismatch() {
    let workflow = Workflow {
        version: 2,
        column_count: 0,
        steps: vec![Step::WaitForNavigation],
        step_delays: vec![], // length 0, but steps has 1
        row_end_delay: Delay::zero(),
        column_bindings: vec![],
        empty_cell_rules: BTreeMap::new(),
        data_source: None,
    };
    let err = workflow.validate().unwrap_err();
    assert!(
        err.message().contains("step_delays has 0 entries"),
        "unexpected error: {err:?}",
    );
}

#[test]
fn delays_are_bounded() {
    let mut workflow = sample_workflow();
    workflow.step_delays[3] = Delay::from_millis(30_000);
    assert_eq!(workflow.validate(), Ok(()));
    workflow.step_delays[3] = Delay::from_millis(30_001);
    let err = workflow.validate().unwrap_err();
    assert_eq!(err.message(), "delay value 30001ms exceeds maximum (30000ms)");
    // A fraction of a millisecond counts, though it is not shown.
    workflow.step_delays[3] = Delay::from_nanos(30_000_000_001);
    assert_eq!(
        workflow.validate(),
        Err(WorkflowError::DelayTooLarge { millis: 30_000, max: 30_000 }),
    );
    workflow.step_delays[3] = Delay::zero();
    workflow.row_end_delay = Delay::from_nanos(u128::MAX);
    assert_eq!(
        workflow.validate(),
        Err(WorkflowError::DelayTooLarge { millis: u64::MAX, max: 30_000 }),
    );
}

#[test]
fn io_and_json_messages() {
    assert_eq!(WorkflowError::Io("gone".to_owned()).message(), "I/O error: gone");
    assert_eq!(WorkflowError::Json("odd".to_owned()).message(), "JSON error: odd");
}

#[test]
fn delays_in_milliseconds() {
    let delay = Delay::from_nanos(1_500_000_999);
    assert_eq!(delay.as_millis(), 1500);
    assert_eq!(delay.stored_millis(), 1500);
    assert_eq!(Delay::from_millis(delay.stored_millis()), Delay::from_nanos(1_500_000_000));
    let longest = Delay::from_nanos(u128::MAX);
    assert_eq!(longest.as_nanos(), 18_446_744_073_709_551_615_999_999_999);
    assert_eq!(longest.stored_millis(), longest.as_millis() as u64);
    assert!(Delay::zero().is_zero() && !delay.is_zero());
}

#[test]
fn delays_at_other_speeds() {
    let delay = Delay::from_millis(100);
    assert_eq!(delay.at_speed(1000), delay);
    assert_eq!(Delay::from_millis(200).at_speed(3000), Delay::from_nanos(66_666_667));
    assert_eq!(Delay::from_millis(100).at_speed(3000), Delay::from_nanos(33_333_333));
    assert_eq!(delay.at_speed(2000), Delay::from_millis(50));
    assert_eq!(delay.at_speed(250), Delay::from_millis(400));
}
