use resume_schema::decode::{dec_position_node, dec_project_node, decode};
use resume_schema::encode::{enc_project_node, encode};
use resume_schema::json::Json;
use resume_schema::model::{
    Basics, Education, Highlight, Keyword, Position, Project, Resume, Work,
};
use resume_schema::report::{DecodeReason, PathSeg};

fn obj(members: Vec<(&str, Json)>) -> Json {
    Json::Obj(members.into_iter().map(|(k, v)| (k.to_string(), v)).collect())
}

fn s(v: &str) -> Json {
    Json::Str(v.to_string())
}

#[test]
fn encode_default_resume_is_empty_object() {
    let r = Resume::default();
    assert_eq!(encode(&r), Json::Obj(vec![]));
}

#[test]
fn encode_emits_location_even_when_empty() {
    let r = Resume {
        basics: Some(Basics::default()),
        ..Resume::default()
    };
    let expected = obj(vec![("basics", obj(vec![("location", obj(vec![]))]))]);
    assert_eq!(encode(&r), expected);
}

#[test]
fn decode_empty_object_gives_default_tree() {
    let r = decode(&obj(vec![])).unwrap();
    assert_eq!(r, Resume::default());
}

#[test]
fn decode_ignores_unknown_members() {
    let j = obj(vec![("somebodyElsesKey", s("x")), ("answer", Json::Num(42))]);
    assert_eq!(decode(&j).unwrap(), Resume::default());
}

#[test]
fn decode_treats_null_members_as_absent() {
    let j = obj(vec![
        ("basics", Json::Null),
        ("work", Json::Null),
        ("meta", Json::Null),
    ]);
    assert_eq!(decode(&j).unwrap(), Resume::default());
}

#[test]
fn decode_renamed_members() {
    let j = obj(vec![(
        "basics",
        obj(vec![(
            "location",
            obj(vec![("postalCode", s("12345")), ("countryCode", s("DE"))]),
        )]),
    )]);
    let r = decode(&j).unwrap();
    let b = r.basics.unwrap();
    assert_eq!(b.location.postal_code.as_deref(), Some("12345"));
    assert_eq!(b.location.country_code.as_deref(), Some("DE"));
}

#[test]
fn position_without_title_fails_to_decode() {
    let j = obj(vec![(
        "work",
        Json::Arr(vec![obj(vec![(
            "positions",
            Json::Arr(vec![obj(vec![("startDate", s("2020"))])]),
        )])]),
    )]);
    let err = decode(&j).unwrap_err();
    assert_eq!(err.reason, DecodeReason::MissingField);
    assert_eq!(
        err.path,
        vec![
            PathSeg::Field("work".to_string()),
            PathSeg::Index(0),
            PathSeg::Field("positions".to_string()),
            PathSeg::Index(0),
            PathSeg::Field("title".to_string()),
        ]
    );
}

#[test]
fn feature_missing_required_member_fails_to_decode() {
    for missing in ["name", "situation", "task", "action", "result"] {
        let mut members: Vec<(&str, Json)> = Vec::new();
        for k in ["name", "situation", "task", "action", "result"] {
            if k != missing {
                members.push((k, s("x")));
            }
        }
        let j = obj(vec![(
            "projects",
            Json::Arr(vec![obj(vec![("features", Json::Arr(vec![obj(members)]))])]),
        )]);
        let err = decode(&j).unwrap_err();
        assert_eq!(err.reason, DecodeReason::MissingField);
        assert_eq!(
            err.path,
            vec![
                PathSeg::Field("projects".to_string()),
                PathSeg::Index(0),
                PathSeg::Field("features".to_string()),
                PathSeg::Index(0),
                PathSeg::Field(missing.to_string()),
            ]
        );
    }
}

#[test]
fn wrong_shape_members_fail_to_decode() {
    let err = decode(&obj(vec![("basics", Json::Num(5))])).unwrap_err();
    assert_eq!(err.reason, DecodeReason::ExpectedObject);
    assert_eq!(err.path, vec![PathSeg::Field("basics".to_string())]);

    let err = decode(&obj(vec![("work", s("nope"))])).unwrap_err();
    assert_eq!(err.reason, DecodeReason::ExpectedArray);
    assert_eq!(err.path, vec![PathSeg::Field("work".to_string())]);

    let err = decode(&obj(vec![(
        "basics",
        obj(vec![("name", Json::Bool(true))]),
    )]))
    .unwrap_err();
    assert_eq!(err.reason, DecodeReason::ExpectedString);
    assert_eq!(
        err.path,
        vec![
            PathSeg::Field("basics".to_string()),
            PathSeg::Field("name".to_string()),
        ]
    );

    let err = decode(&Json::Num(3)).unwrap_err();
    assert_eq!(err.reason, DecodeReason::ExpectedObject);
    assert_eq!(err.path, vec![]);
}

#[test]
fn wrapper_values_cross_the_wire_as_bare_strings() {
    let p = Project {
        highlights: vec![Highlight("Increased profits by 20%".to_string())],
        ..Project::default()
    };
    let j = enc_project_node(&p);
    let expected = obj(vec![(
        "highlights",
        Json::Arr(vec![s("Increased profits by 20%")]),
    )]);
    assert_eq!(j, expected);
    assert_eq!(dec_project_node(&expected).unwrap(), p);
}

#[test]
fn position_round_trip() {
    let p = Position {
        title: "Cat Herder".to_string(),
        start_date: Some("2019-04".to_string()),
        end_date: None,
    };
    let j = obj(vec![("title", s("Cat Herder")), ("startDate", s("2019-04"))]);
    assert_eq!(dec_position_node(&j).unwrap(), p);
}

fn sample_tree() -> Resume {
    Resume {
        basics: Some(Basics {
            name: Some("Ada Lovelace".to_string()),
            email: Some("ada@example.org".to_string()),
            profiles: vec![resume_schema::model::Profile {
                network: Some("Mastodon".to_string()),
                username: Some("ada".to_string()),
                url: None,
            }],
            ..Basics::default()
        }),
        work: vec![Work {
            name: Some("Analytical Engines Ltd".to_string()),
            positions: vec![Position {
                title: "Programmer".to_string(),
                start_date: Some("1843".to_string()),
                end_date: None,
            }],
            highlights: vec![Highlight("First program".to_string())],
            ..Work::default()
        }],
        education: vec![Education {
            institution: Some("Home tutoring".to_string()),
            degrees: vec!["Mathematics".to_string()],
            ..Education::default()
        }],
        projects: vec![Project {
            name: Some("Notes on the Analytical Engine".to_string()),
            keywords: vec![Keyword("computing".to_string())],
            type_: Some("publication".to_string()),
            ..Project::default()
        }],
        ..Resume::default()
    }
}

#[test]
fn rich_tree_round_trips() {
    let r = sample_tree();
    let wire = encode(&r);
    assert_eq!(decode(&wire).unwrap(), r);
}

#[test]
fn decode_then_encode_then_decode_is_stable() {
    let j = obj(vec![
        ("languages", Json::Arr(vec![obj(vec![("language", s("English")), ("fluency", s("Fluent"))])])),
        ("mystery", Json::Bool(false)),
    ]);
    let first = decode(&j).unwrap();
    let again = decode(&encode(&first)).unwrap();
    assert_eq!(again, first);
}

#[test]
fn wrapper_display_returns_wrapped_string() {
    assert_eq!(Highlight("done a thing".to_string()).display(), "done a thing");
    assert_eq!(Keyword("HTML".to_string()).display(), "HTML");
    assert_eq!(
        resume_schema::model::Course("H1302".to_string()).display(),
        "H1302"
    );
    assert_eq!(resume_schema::model::Duty("filing".to_string()).display(), "filing");
    assert_eq!(resume_schema::model::Profit("20%".to_string()).display(), "20%");
    assert_eq!(resume_schema::model::Role("Team Lead".to_string()).display(), "Team Lead");
}

#[test]
fn side_projects_use_their_wire_name() {
    let r = Resume {
        side_projects: vec![Project {
            name: Some("tiny tool".to_string()),
            ..Project::default()
        }],
        ..Resume::default()
    };
    let expected = obj(vec![(
        "sideProjects",
        Json::Arr(vec![obj(vec![("name", s("tiny tool"))])]),
    )]);
    let wire = encode(&r);
    assert_eq!(wire, expected);
    assert_eq!(decode(&wire).unwrap(), r);
}
