use std::io::{Error, ErrorKind};

use ttgen::{OutputStatus, Snapshot, TemplateSpec, Timestamp};

fn example(output: Option<&str>) -> TemplateSpec {
    TemplateSpec::new_unchecked(
        "example".to_string(),
        "data.json".to_string(),
        "template.hbs".to_string(),
        output.map(|path| path.to_string()),
    )
}

fn at(nanos: i128) -> Result<Timestamp, Error> {
    Ok(Timestamp { nanos })
}

fn unreadable(what: &str) -> Result<Timestamp, Error> {
    Err(Error::new(ErrorKind::PermissionDenied, what.to_string()))
}

fn found(output: i128, data: i128, template: i128) -> Snapshot {
    Snapshot {
        output_exists: true,
        output_modified: at(output),
        data_modified: at(data),
        template_modified: at(template),
    }
}

fn nothing_at_output(data: i128, template: i128) -> Snapshot {
    Snapshot {
        output_exists: false,
        output_modified: Err(Error::new(ErrorKind::NotFound, "output.rst".to_string())),
        data_modified: at(data),
        template_modified: at(template),
    }
}

#[test]
fn no_output_is_forced() {
    let spec = example(None);
    assert!(matches!(spec.up_to_date(found(30, 10, 20)), OutputStatus::Forced));
    assert!(matches!(spec.up_to_date(found(5, 10, 20)), OutputStatus::Forced));
    assert!(matches!(spec.up_to_date(nothing_at_output(10, 20)), OutputStatus::Forced));
    assert!(spec.should_build(found(30, 10, 20)));
    assert!(spec.should_build(nothing_at_output(10, 20)));
}

#[test]
fn no_output_is_forced_even_where_nothing_can_be_read() {
    let spec = example(None);
    let facts = Snapshot {
        output_exists: true,
        output_modified: unreadable("output"),
        data_modified: unreadable("data"),
        template_modified: unreadable("template"),
    };
    assert!(matches!(spec.up_to_date(facts), OutputStatus::Forced));
}

#[test]
fn absent_output_is_file_missing() {
    let spec = example(Some("output.rst"));
    assert!(matches!(spec.up_to_date(nothing_at_output(10, 20)), OutputStatus::FileMissing));
    assert!(spec.should_build(nothing_at_output(10, 20)));
}

#[test]
fn absent_output_is_file_missing_before_any_time_is_read() {
    let spec = example(Some("output.rst"));
    let facts = Snapshot {
        output_exists: false,
        output_modified: at(100),
        data_modified: unreadable("data"),
        template_modified: unreadable("template"),
    };
    assert!(matches!(spec.up_to_date(facts), OutputStatus::FileMissing));
}

#[test]
fn newest_output_is_up_to_date() {
    let spec = example(Some("output.rst"));
    assert!(matches!(spec.up_to_date(found(30, 10, 20)), OutputStatus::UpToDate));
    assert!(!spec.should_build(found(30, 10, 20)));
}

#[test]
fn output_as_old_as_one_input_is_up_to_date() {
    let spec = example(Some("output.rst"));
    assert!(matches!(spec.up_to_date(found(20, 10, 20)), OutputStatus::UpToDate));
    assert!(matches!(spec.up_to_date(found(20, 20, 10)), OutputStatus::UpToDate));
    assert!(!spec.should_build(found(20, 10, 20)));
}

#[test]
fn equal_times_are_up_to_date() {
    let spec = example(Some("output.rst"));
    assert!(matches!(spec.up_to_date(found(1_700_000_000, 1_700_000_000, 1_700_000_000)), OutputStatus::UpToDate));
    assert!(!spec.should_build(found(0, 0, 0)));
    assert!(!spec.should_build(found(-7, -7, -7)));
}

#[test]
fn output_older_than_template_is_out_of_date() {
    let spec = example(Some("output.rst"));
    assert!(matches!(spec.up_to_date(found(15, 10, 20)), OutputStatus::OutOfDate));
    assert!(spec.should_build(found(15, 10, 20)));
}

#[test]
fn output_older_than_data_is_out_of_date() {
    let spec = example(Some("output.rst"));
    assert!(matches!(spec.up_to_date(found(15, 20, 10)), OutputStatus::OutOfDate));
    assert!(spec.should_build(found(15, 20, 10)));
}

#[test]
fn output_older_than_both_is_out_of_date() {
    let spec = example(Some("output.rst"));
    assert!(matches!(spec.up_to_date(found(1, 2, 3)), OutputStatus::OutOfDate));
    assert!(matches!(spec.up_to_date(found(19, 20, 20)), OutputStatus::OutOfDate));
}

#[test]
fn times_before_the_epoch_are_ordered_too() {
    let spec = example(Some("output.rst"));
    assert!(matches!(spec.up_to_date(found(-5, -10, -20)), OutputStatus::UpToDate));
    assert!(matches!(spec.up_to_date(found(-30, -10, -20)), OutputStatus::OutOfDate));
    assert!(matches!(spec.up_to_date(found(i128::MIN, i128::MIN, i128::MAX)), OutputStatus::OutOfDate));
    assert!(matches!(spec.up_to_date(found(i128::MAX, i128::MIN, i128::MAX)), OutputStatus::UpToDate));
}

#[test]
fn inputs_written_first_output_earlier_still() {
    // template.hbs and data.json at one moment, output.rst before it
    let spec = TemplateSpec::new_unchecked(
        "scenario".to_string(),
        "data.json".to_string(),
        "template.hbs".to_string(),
        Some("output.rst".to_string()),
    );
    let t0: i128 = 1_000_000_000;
    let t1: i128 = 999_999_999;
    assert!(matches!(spec.up_to_date(found(t1, t0, t0)), OutputStatus::OutOfDate));
}

#[test]
fn output_newest_then_deleted() {
    let spec = TemplateSpec::new_unchecked(
        "scenario".to_string(),
        "data.json".to_string(),
        "template.hbs".to_string(),
        Some("output.rst".to_string()),
    );
    assert!(matches!(spec.up_to_date(found(300, 100, 200)), OutputStatus::UpToDate));
    // the output is gone, the inputs are as they were
    assert!(matches!(spec.up_to_date(nothing_at_output(100, 200)), OutputStatus::FileMissing));
}

#[test]
fn unreadable_output_time_cannot_be_determined() {
    let spec = example(Some("output.rst"));
    let facts = Snapshot {
        output_exists: true,
        output_modified: unreadable("output"),
        data_modified: at(10),
        template_modified: at(20),
    };
    match spec.up_to_date(facts) {
        OutputStatus::CannotDetermine(failure) => {
            assert_eq!(failure.kind(), ErrorKind::PermissionDenied);
            assert_eq!(failure.to_string(), "output");
        }
        _ => panic!("the failure should decide"),
    }
}

#[test]
fn first_unreadable_time_is_carried() {
    let spec = example(Some("output.rst"));
    let all = Snapshot {
        output_exists: true,
        output_modified: unreadable("output"),
        data_modified: unreadable("data"),
        template_modified: unreadable("template"),
    };
    match spec.up_to_date(all) {
        OutputStatus::CannotDetermine(failure) => assert_eq!(failure.to_string(), "output"),
        _ => panic!("the failure should decide"),
    }
    let inputs = Snapshot {
        output_exists: true,
        output_modified: at(50),
        data_modified: unreadable("data"),
        template_modified: unreadable("template"),
    };
    match spec.up_to_date(inputs) {
        OutputStatus::CannotDetermine(failure) => assert_eq!(failure.to_string(), "data"),
        _ => panic!("the failure should decide"),
    }
    let template = Snapshot {
        output_exists: true,
        output_modified: at(50),
        data_modified: at(10),
        template_modified: unreadable("template"),
    };
    match spec.up_to_date(template) {
        OutputStatus::CannotDetermine(failure) => assert_eq!(failure.to_string(), "template"),
        _ => panic!("the failure should decide"),
    }
}

#[test]
fn unreadable_time_wins_over_staleness() {
    let spec = example(Some("output.rst"));
    let facts = Snapshot {
        output_exists: true,
        output_modified: at(1),
        data_modified: at(100),
        template_modified: unreadable("template"),
    };
    assert!(matches!(spec.up_to_date(facts), OutputStatus::CannotDetermine(_)));
}

#[test]
fn undetermined_status_is_built() {
    let spec = example(Some("output.rst"));
    let facts = Snapshot {
        output_exists: true,
        output_modified: at(50),
        data_modified: unreadable("data"),
        template_modified: at(20),
    };
    assert!(spec.should_build(facts));
}

#[test]
fn should_build_unless_up_to_date() {
    let spec = example(Some("output.rst"));
    assert!(!spec.should_build(found(30, 10, 20)));
    assert!(spec.should_build(found(5, 10, 20)));
    assert!(spec.should_build(nothing_at_output(10, 20)));
    assert!(example(None).should_build(found(30, 10, 20)));
}
