use resume_schema::model::{Award, Education, Resume, Work};
use resume_schema::report::PathSeg;
use resume_schema::valid::{check_date, validate};

#[test]
fn date_pattern_accepts_the_three_forms() {
    assert!(check_date("2021"));
    assert!(check_date("2021-06"));
    assert!(check_date("2021-06-15"));
}

#[test]
fn date_pattern_rejects_other_shapes() {
    assert!(!check_date("21-06-15"));
    assert!(!check_date("2021/06/15"));
    assert!(!check_date("June 2021"));
    assert!(!check_date(""));
    assert!(!check_date("3021"));
    assert!(!check_date("0999"));
    assert!(!check_date("2021-6"));
    assert!(!check_date("2021-06-5"));
}

#[test]
fn date_pattern_is_not_calendar_aware() {
    // Only the leading digits of month and day are constrained.
    assert!(check_date("2021-19"));
    assert!(check_date("2021-06-39"));
    assert!(!check_date("2021-29"));
    assert!(!check_date("2021-06-49"));
}

#[test]
fn empty_tree_passes_validation() {
    assert!(validate(&Resume::default()).is_ok());
}

#[test]
fn valid_dates_pass_validation() {
    let r = Resume {
        work: vec![Work {
            start_date: Some("2019".to_string()),
            end_date: Some("2021-06-15".to_string()),
            ..Work::default()
        }],
        ..Resume::default()
    };
    assert!(validate(&r).is_ok());
}

#[test]
fn invalid_date_reports_its_field_path() {
    for bad in ["21-06-15", "2021/06/15", "June 2021"] {
        let r = Resume {
            work: vec![Work {
                start_date: Some(bad.to_string()),
                ..Work::default()
            }],
            ..Resume::default()
        };
        let errs = validate(&r).unwrap_err();
        assert_eq!(errs.errors.len(), 1);
        assert_eq!(
            errs.errors[0].path,
            vec![
                PathSeg::Field("work".to_string()),
                PathSeg::Index(0),
                PathSeg::Field("startDate".to_string()),
            ]
        );
        assert_eq!(errs.errors[0].value, bad);
    }
}

#[test]
fn two_invalid_dates_give_exactly_two_entries() {
    let r = Resume {
        work: vec![Work {
            start_date: Some("bad".to_string()),
            ..Work::default()
        }],
        education: vec![Education {
            end_date: Some("also-bad".to_string()),
            ..Education::default()
        }],
        ..Resume::default()
    };
    let errs = validate(&r).unwrap_err();
    assert_eq!(errs.errors.len(), 2);
    assert_eq!(
        errs.errors[0].path,
        vec![
            PathSeg::Field("work".to_string()),
            PathSeg::Index(0),
            PathSeg::Field("startDate".to_string()),
        ]
    );
    assert_eq!(errs.errors[0].value, "bad");
    assert_eq!(
        errs.errors[1].path,
        vec![
            PathSeg::Field("education".to_string()),
            PathSeg::Index(0),
            PathSeg::Field("endDate".to_string()),
        ]
    );
    assert_eq!(errs.errors[1].value, "also-bad");
}

#[test]
fn award_date_is_validated() {
    let r = Resume {
        awards: vec![Award {
            date: Some("sometime".to_string()),
            ..Award::default()
        }],
        ..Resume::default()
    };
    let errs = validate(&r).unwrap_err();
    assert_eq!(errs.errors.len(), 1);
    assert_eq!(
        errs.errors[0].path,
        vec![
            PathSeg::Field("awards".to_string()),
            PathSeg::Index(0),
            PathSeg::Field("date".to_string()),
        ]
    );
}

#[test]
fn nested_position_dates_are_validated() {
    let r = Resume {
        work: vec![Work {
            positions: vec![resume_schema::model::Position {
                title: "t".to_string(),
                start_date: Some("nope".to_string()),
                end_date: None,
            }],
            ..Work::default()
        }],
        ..Resume::default()
    };
    let errs = validate(&r).unwrap_err();
    assert_eq!(errs.errors.len(), 1);
    assert_eq!(
        errs.errors[0].path,
        vec![
            PathSeg::Field("work".to_string()),
            PathSeg::Index(0),
            PathSeg::Field("positions".to_string()),
            PathSeg::Index(0),
            PathSeg::Field("startDate".to_string()),
        ]
    );
}

#[test]
fn meta_last_modified_is_not_a_validated_date() {
    let r = Resume {
        meta: Some(resume_schema::model::Meta {
            canonical: None,
            version: None,
            last_modified: Some("2017-12-24T15:53:00".to_string()),
        }),
        ..Resume::default()
    };
    assert!(validate(&r).is_ok());
}
