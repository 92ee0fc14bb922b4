//! The decoder: maps a wire value onto the schema, by the specification
//! in `wire`. A missing or null member becomes the field's default, an
//! unknown member is ignored, and a member of the wrong shape, or a
//! missing required string, is reported with its path.

use vstd::prelude::*;
use crate::json::{Json, JsonV, json_view, elems_view, fields_view, lemma_elems_view, jv_obj_get, get_field};
use crate::model::{Resume, Basics, Location, Profile, Work, Position, Volunteer, Education, Award, Certificate, Publication, Skill, Language, Interest, Reference, Project, Feature, Meta, Highlight, Course, Keyword, Duty, Profit, Role, LocationView, ProfileView, WorkView, PositionView, VolunteerView, EducationView, AwardView, CertificateView, PublicationView, SkillView, LanguageView, InterestView, ReferenceView, ProjectView, FeatureView};
use crate::wire::{dec_opt_str, dec_req_str, dec_list, dec_opt_rec, dec_rec, dec_str_f, all_some, dec_elems, dec_resume_fields, dec_resume, dec_basics_fields, dec_basics, dec_basics_f, dec_location_fields, dec_location, dec_location_f, dec_profile_fields, dec_profile, dec_profile_f, dec_work_fields, dec_work, dec_work_f, dec_position_fields, dec_position, dec_position_f, dec_volunteer_fields, dec_volunteer, dec_volunteer_f, dec_education_fields, dec_education, dec_education_f, dec_award_fields, dec_award, dec_award_f, dec_certificate_fields, dec_certificate, dec_certificate_f, dec_publication_fields, dec_publication, dec_publication_f, dec_skill_fields, dec_skill, dec_skill_f, dec_language_fields, dec_language, dec_language_f, dec_interest_fields, dec_interest, dec_interest_f, dec_reference_fields, dec_reference, dec_reference_f, dec_project_fields, dec_project, dec_project_f, dec_feature_fields, dec_feature, dec_feature_f, dec_meta_fields, dec_meta, dec_meta_f};
use crate::report::{PathSeg, DecodeReason, DecodeError};
use crate::util::{lemma_vec_deep, lemma_seq_deep_push};

verus! {

broadcast use lemma_vec_deep, lemma_seq_deep_push;

fn dec_opt_str_field(f: &Vec<(String, Json)>, name: &str) -> (r: Result<
    Option<String>,
    DecodeError,
>)
    ensures
        match r {
            Ok(v) => dec_opt_str(fields_view(f@), name@) == Some(v.deep_view()),
            Err(_) => dec_opt_str(fields_view(f@), name@) is None,
        },
{
    match get_field(f, name) {
        None => Ok(None),
        Some(j) => match j {
            Json::Null => Ok(None),
            Json::Str(s) => Ok(Some(s.clone())),
            _ => Err(DecodeError::at_field(name, DecodeReason::ExpectedString)),
        },
    }
}

fn dec_req_str_field(f: &Vec<(String, Json)>, name: &str) -> (r: Result<String, DecodeError>)
    ensures
        match r {
            Ok(v) => dec_req_str(fields_view(f@), name@) == Some(v@),
            Err(_) => dec_req_str(fields_view(f@), name@) is None,
        },
{
    match get_field(f, name) {
        None => Err(DecodeError::at_field(name, DecodeReason::MissingField)),
        Some(j) => match j {
            Json::Str(s) => Ok(s.clone()),
            _ => Err(DecodeError::at_field(name, DecodeReason::ExpectedString)),
        },
    }
}

fn dec_str_list_field(f: &Vec<(String, Json)>, name: &str) -> (r: Result<Vec<String>, DecodeError>)
    ensures
        match r {
            Ok(v) => dec_list(fields_view(f@), name@, dec_str_f()) == Some(v.deep_view()),
            Err(_) => dec_list(fields_view(f@), name@, dec_str_f()) is None,
        },
{
    let j = match get_field(f, name) {
        None => {
            let v: Vec<String> = Vec::new();
            proof {
                assert(v.deep_view() =~= Seq::<Seq<char>>::empty());
            }
            return Ok(v);
        },
        Some(j) => j,
    };
    match j {
        Json::Null => {
            let v: Vec<String> = Vec::new();
            proof {
                assert(v.deep_view() =~= Seq::<Seq<char>>::empty());
            }
            Ok(v)
        },
        Json::Arr(a) => {
            let ghost av = elems_view(a@);
            proof {
                lemma_elems_view(a@);
            }
            let mut v: Vec<String> = Vec::new();
            let n = a.len();
            for i in 0..n
                invariant
                    n == a.len(),
                    av == elems_view(a@),
                    av.len() == a@.len(),
                    jv_obj_get(fields_view(f@), name@) == Some(JsonV::Arr(av)),
                    forall|m: int| 0 <= m < n ==> av[m] == json_view(#[trigger] a@[m]),
                    v.deep_view().len() == i,
                    forall|m: int| 0 <= m < i ==> (#[trigger] dec_str_f()(av[m]))
                        == Some(v.deep_view()[m]),
            {
                let e = &a[i];
                match e {
                    Json::Str(s) => {
                        let ghost prevlen = v.deep_view().len();
                        v.push(s.clone());
                        proof {
                            assert(v.deep_view().len() == prevlen + 1);
                            assert(dec_str_f()(av[i as int]) == Some(
                                v.deep_view()[i as int]));
                        }
                    },
                    _ => {
                        proof {
                            assert(dec_str_f()(av[i as int]) is None);
                            assert(!all_some(av, dec_str_f()));
                        }
                        let mut err = DecodeError::at_field(name,
                            DecodeReason::ExpectedString);
                        err.path.push(PathSeg::Index(i));
                        return Err(err);
                    },
                }
            }
            proof {
                assert(all_some(av, dec_str_f()));
                assert(v.deep_view() =~= dec_elems(av, dec_str_f()));
            }
            Ok(v)
        },
        _ => Err(DecodeError::at_field(name, DecodeReason::ExpectedArray)),
    }
}

fn dec_highlight_list_field(f: &Vec<(String, Json)>, name: &str) -> (r: Result<Vec<Highlight>, DecodeError>)
    ensures
        match r {
            Ok(v) => dec_list(fields_view(f@), name@, dec_str_f()) == Some(v.deep_view()),
            Err(_) => dec_list(fields_view(f@), name@, dec_str_f()) is None,
        },
{
    let j = match get_field(f, name) {
        None => {
            let v: Vec<Highlight> = Vec::new();
            proof {
                assert(v.deep_view() =~= Seq::<Seq<char>>::empty());
            }
            return Ok(v);
        },
        Some(j) => j,
    };
    match j {
        Json::Null => {
            let v: Vec<Highlight> = Vec::new();
            proof {
                assert(v.deep_view() =~= Seq::<Seq<char>>::empty());
            }
            Ok(v)
        },
        Json::Arr(a) => {
            let ghost av = elems_view(a@);
            proof {
                lemma_elems_view(a@);
            }
            let mut v: Vec<Highlight> = Vec::new();
            let n = a.len();
            for i in 0..n
                invariant
                    n == a.len(),
                    av == elems_view(a@),
                    av.len() == a@.len(),
                    jv_obj_get(fields_view(f@), name@) == Some(JsonV::Arr(av)),
                    forall|m: int| 0 <= m < n ==> av[m] == json_view(#[trigger] a@[m]),
                    v.deep_view().len() == i,
                    forall|m: int| 0 <= m < i ==> (#[trigger] dec_str_f()(av[m]))
                        == Some(v.deep_view()[m]),
            {
                let e = &a[i];
                match e {
                    Json::Str(s) => {
                        let ghost prevlen = v.deep_view().len();
                        v.push(Highlight(s.clone()));
                        proof {
                            assert(v.deep_view().len() == prevlen + 1);
                            assert(dec_str_f()(av[i as int]) == Some(
                                v.deep_view()[i as int]));
                        }
                    },
                    _ => {
                        proof {
                            assert(dec_str_f()(av[i as int]) is None);
                            assert(!all_some(av, dec_str_f()));
                        }
                        let mut err = DecodeError::at_field(name,
                            DecodeReason::ExpectedString);
                        err.path.push(PathSeg::Index(i));
                        return Err(err);
                    },
                }
            }
            proof {
                assert(all_some(av, dec_str_f()));
                assert(v.deep_view() =~= dec_elems(av, dec_str_f()));
            }
            Ok(v)
        },
        _ => Err(DecodeError::at_field(name, DecodeReason::ExpectedArray)),
    }
}

fn dec_course_list_field(f: &Vec<(String, Json)>, name: &str) -> (r: Result<Vec<Course>, DecodeError>)
    ensures
        match r {
            Ok(v) => dec_list(fields_view(f@), name@, dec_str_f()) == Some(v.deep_view()),
            Err(_) => dec_list(fields_view(f@), name@, dec_str_f()) is None,
        },
{
    let j = match get_field(f, name) {
        None => {
            let v: Vec<Course> = Vec::new();
            proof {
                assert(v.deep_view() =~= Seq::<Seq<char>>::empty());
            }
            return Ok(v);
        },
        Some(j) => j,
    };
    match j {
        Json::Null => {
            let v: Vec<Course> = Vec::new();
            proof {
                assert(v.deep_view() =~= Seq::<Seq<char>>::empty());
            }
            Ok(v)
        },
        Json::Arr(a) => {
            let ghost av = elems_view(a@);
            proof {
                lemma_elems_view(a@);
            }
            let mut v: Vec<Course> = Vec::new();
            let n = a.len();
            for i in 0..n
                invariant
                    n == a.len(),
                    av == elems_view(a@),
                    av.len() == a@.len(),
                    jv_obj_get(fields_view(f@), name@) == Some(JsonV::Arr(av)),
                    forall|m: int| 0 <= m < n ==> av[m] == json_view(#[trigger] a@[m]),
                    v.deep_view().len() == i,
                    forall|m: int| 0 <= m < i ==> (#[trigger] dec_str_f()(av[m]))
                        == Some(v.deep_view()[m]),
            {
                let e = &a[i];
                match e {
                    Json::Str(s) => {
                        let ghost prevlen = v.deep_view().len();
                        v.push(Course(s.clone()));
                        proof {
                            assert(v.deep_view().len() == prevlen + 1);
                            assert(dec_str_f()(av[i as int]) == Some(
                                v.deep_view()[i as int]));
                        }
                    },
                    _ => {
                        proof {
                            assert(dec_str_f()(av[i as int]) is None);
                            assert(!all_some(av, dec_str_f()));
                        }
                        let mut err = DecodeError::at_field(name,
                            DecodeReason::ExpectedString);
                        err.path.push(PathSeg::Index(i));
                        return Err(err);
                    },
                }
            }
            proof {
                assert(all_some(av, dec_str_f()));
                assert(v.deep_view() =~= dec_elems(av, dec_str_f()));
            }
            Ok(v)
        },
        _ => Err(DecodeError::at_field(name, DecodeReason::ExpectedArray)),
    }
}

fn dec_keyword_list_field(f: &Vec<(String, Json)>, name: &str) -> (r: Result<Vec<Keyword>, DecodeError>)
    ensures
        match r {
            Ok(v) => dec_list(fields_view(f@), name@, dec_str_f()) == Some(v.deep_view()),
            Err(_) => dec_list(fields_view(f@), name@, dec_str_f()) is None,
        },
{
    let j = match get_field(f, name) {
        None => {
            let v: Vec<Keyword> = Vec::new();
            proof {
                assert(v.deep_view() =~= Seq::<Seq<char>>::empty());
            }
            return Ok(v);
        },
        Some(j) => j,
    };
    match j {
        Json::Null => {
            let v: Vec<Keyword> = Vec::new();
            proof {
                assert(v.deep_view() =~= Seq::<Seq<char>>::empty());
            }
            Ok(v)
        },
        Json::Arr(a) => {
            let ghost av = elems_view(a@);
            proof {
                lemma_elems_view(a@);
            }
            let mut v: Vec<Keyword> = Vec::new();
            let n = a.len();
            for i in 0..n
                invariant
                    n == a.len(),
                    av == elems_view(a@),
                    av.len() == a@.len(),
                    jv_obj_get(fields_view(f@), name@) == Some(JsonV::Arr(av)),
                    forall|m: int| 0 <= m < n ==> av[m] == json_view(#[trigger] a@[m]),
                    v.deep_view().len() == i,
                    forall|m: int| 0 <= m < i ==> (#[trigger] dec_str_f()(av[m]))
                        == Some(v.deep_view()[m]),
            {
                let e = &a[i];
                match e {
                    Json::Str(s) => {
                        let ghost prevlen = v.deep_view().len();
                        v.push(Keyword(s.clone()));
                        proof {
                            assert(v.deep_view().len() == prevlen + 1);
                            assert(dec_str_f()(av[i as int]) == Some(
                                v.deep_view()[i as int]));
                        }
                    },
                    _ => {
                        proof {
                            assert(dec_str_f()(av[i as int]) is None);
                            assert(!all_some(av, dec_str_f()));
                        }
                        let mut err = DecodeError::at_field(name,
                            DecodeReason::ExpectedString);
                        err.path.push(PathSeg::Index(i));
                        return Err(err);
                    },
                }
            }
            proof {
                assert(all_some(av, dec_str_f()));
                assert(v.deep_view() =~= dec_elems(av, dec_str_f()));
            }
            Ok(v)
        },
        _ => Err(DecodeError::at_field(name, DecodeReason::ExpectedArray)),
    }
}

fn dec_duty_list_field(f: &Vec<(String, Json)>, name: &str) -> (r: Result<Vec<Duty>, DecodeError>)
    ensures
        match r {
            Ok(v) => dec_list(fields_view(f@), name@, dec_str_f()) == Some(v.deep_view()),
            Err(_) => dec_list(fields_view(f@), name@, dec_str_f()) is None,
        },
{
    let j = match get_field(f, name) {
        None => {
            let v: Vec<Duty> = Vec::new();
            proof {
                assert(v.deep_view() =~= Seq::<Seq<char>>::empty());
            }
            return Ok(v);
        },
        Some(j) => j,
    };
    match j {
        Json::Null => {
            let v: Vec<Duty> = Vec::new();
            proof {
                assert(v.deep_view() =~= Seq::<Seq<char>>::empty());
            }
            Ok(v)
        },
        Json::Arr(a) => {
            let ghost av = elems_view(a@);
            proof {
                lemma_elems_view(a@);
            }
            let mut v: Vec<Duty> = Vec::new();
            let n = a.len();
            for i in 0..n
                invariant
                    n == a.len(),
                    av == elems_view(a@),
                    av.len() == a@.len(),
                    jv_obj_get(fields_view(f@), name@) == Some(JsonV::Arr(av)),
                    forall|m: int| 0 <= m < n ==> av[m] == json_view(#[trigger] a@[m]),
                    v.deep_view().len() == i,
                    forall|m: int| 0 <= m < i ==> (#[trigger] dec_str_f()(av[m]))
                        == Some(v.deep_view()[m]),
            {
                let e = &a[i];
                match e {
                    Json::Str(s) => {
                        let ghost prevlen = v.deep_view().len();
                        v.push(Duty(s.clone()));
                        proof {
                            assert(v.deep_view().len() == prevlen + 1);
                            assert(dec_str_f()(av[i as int]) == Some(
                                v.deep_view()[i as int]));
                        }
                    },
                    _ => {
                        proof {
                            assert(dec_str_f()(av[i as int]) is None);
                            assert(!all_some(av, dec_str_f()));
                        }
                        let mut err = DecodeError::at_field(name,
                            DecodeReason::ExpectedString);
                        err.path.push(PathSeg::Index(i));
                        return Err(err);
                    },
                }
            }
            proof {
                assert(all_some(av, dec_str_f()));
                assert(v.deep_view() =~= dec_elems(av, dec_str_f()));
            }
            Ok(v)
        },
        _ => Err(DecodeError::at_field(name, DecodeReason::ExpectedArray)),
    }
}

fn dec_profit_list_field(f: &Vec<(String, Json)>, name: &str) -> (r: Result<Vec<Profit>, DecodeError>)
    ensures
        match r {
            Ok(v) => dec_list(fields_view(f@), name@, dec_str_f()) == Some(v.deep_view()),
            Err(_) => dec_list(fields_view(f@), name@, dec_str_f()) is None,
        },
{
    let j = match get_field(f, name) {
        None => {
            let v: Vec<Profit> = Vec::new();
            proof {
                assert(v.deep_view() =~= Seq::<Seq<char>>::empty());
            }
            return Ok(v);
        },
        Some(j) => j,
    };
    match j {
        Json::Null => {
            let v: Vec<Profit> = Vec::new();
            proof {
                assert(v.deep_view() =~= Seq::<Seq<char>>::empty());
            }
            Ok(v)
        },
        Json::Arr(a) => {
            let ghost av = elems_view(a@);
            proof {
                lemma_elems_view(a@);
            }
            let mut v: Vec<Profit> = Vec::new();
            let n = a.len();
            for i in 0..n
                invariant
                    n == a.len(),
                    av == elems_view(a@),
                    av.len() == a@.len(),
                    jv_obj_get(fields_view(f@), name@) == Some(JsonV::Arr(av)),
                    forall|m: int| 0 <= m < n ==> av[m] == json_view(#[trigger] a@[m]),
                    v.deep_view().len() == i,
                    forall|m: int| 0 <= m < i ==> (#[trigger] dec_str_f()(av[m]))
                        == Some(v.deep_view()[m]),
            {
                let e = &a[i];
                match e {
                    Json::Str(s) => {
                        let ghost prevlen = v.deep_view().len();
                        v.push(Profit(s.clone()));
                        proof {
                            assert(v.deep_view().len() == prevlen + 1);
                            assert(dec_str_f()(av[i as int]) == Some(
                                v.deep_view()[i as int]));
                        }
                    },
                    _ => {
                        proof {
                            assert(dec_str_f()(av[i as int]) is None);
                            assert(!all_some(av, dec_str_f()));
                        }
                        let mut err = DecodeError::at_field(name,
                            DecodeReason::ExpectedString);
                        err.path.push(PathSeg::Index(i));
                        return Err(err);
                    },
                }
            }
            proof {
                assert(all_some(av, dec_str_f()));
                assert(v.deep_view() =~= dec_elems(av, dec_str_f()));
            }
            Ok(v)
        },
        _ => Err(DecodeError::at_field(name, DecodeReason::ExpectedArray)),
    }
}

fn dec_role_list_field(f: &Vec<(String, Json)>, name: &str) -> (r: Result<Vec<Role>, DecodeError>)
    ensures
        match r {
            Ok(v) => dec_list(fields_view(f@), name@, dec_str_f()) == Some(v.deep_view()),
            Err(_) => dec_list(fields_view(f@), name@, dec_str_f()) is None,
        },
{
    let j = match get_field(f, name) {
        None => {
            let v: Vec<Role> = Vec::new();
            proof {
                assert(v.deep_view() =~= Seq::<Seq<char>>::empty());
            }
            return Ok(v);
        },
        Some(j) => j,
    };
    match j {
        Json::Null => {
            let v: Vec<Role> = Vec::new();
            proof {
                assert(v.deep_view() =~= Seq::<Seq<char>>::empty());
            }
            Ok(v)
        },
        Json::Arr(a) => {
            let ghost av = elems_view(a@);
            proof {
                lemma_elems_view(a@);
            }
            let mut v: Vec<Role> = Vec::new();
            let n = a.len();
            for i in 0..n
                invariant
                    n == a.len(),
                    av == elems_view(a@),
                    av.len() == a@.len(),
                    jv_obj_get(fields_view(f@), name@) == Some(JsonV::Arr(av)),
                    forall|m: int| 0 <= m < n ==> av[m] == json_view(#[trigger] a@[m]),
                    v.deep_view().len() == i,
                    forall|m: int| 0 <= m < i ==> (#[trigger] dec_str_f()(av[m]))
                        == Some(v.deep_view()[m]),
            {
                let e = &a[i];
                match e {
                    Json::Str(s) => {
                        let ghost prevlen = v.deep_view().len();
                        v.push(Role(s.clone()));
                        proof {
                            assert(v.deep_view().len() == prevlen + 1);
                            assert(dec_str_f()(av[i as int]) == Some(
                                v.deep_view()[i as int]));
                        }
                    },
                    _ => {
                        proof {
                            assert(dec_str_f()(av[i as int]) is None);
                            assert(!all_some(av, dec_str_f()));
                        }
                        let mut err = DecodeError::at_field(name,
                            DecodeReason::ExpectedString);
                        err.path.push(PathSeg::Index(i));
                        return Err(err);
                    },
                }
            }
            proof {
                assert(all_some(av, dec_str_f()));
                assert(v.deep_view() =~= dec_elems(av, dec_str_f()));
            }
            Ok(v)
        },
        _ => Err(DecodeError::at_field(name, DecodeReason::ExpectedArray)),
    }
}

fn dec_work_list_field(f: &Vec<(String, Json)>, name: &str) -> (r: Result<
    Vec<Work>,
    DecodeError,
>)
    ensures
        match r {
            Ok(v) => dec_list(fields_view(f@), name@, dec_work_f()) == Some(v.deep_view()),
            Err(_) => dec_list(fields_view(f@), name@, dec_work_f()) is None,
        },
{
    let j = match get_field(f, name) {
        None => {
            let v: Vec<Work> = Vec::new();
            proof {
                assert(v.deep_view() =~= Seq::<WorkView>::empty());
            }
            return Ok(v);
        },
        Some(j) => j,
    };
    match j {
        Json::Null => {
            let v: Vec<Work> = Vec::new();
            proof {
                assert(v.deep_view() =~= Seq::<WorkView>::empty());
            }
            Ok(v)
        },
        Json::Arr(a) => {
            let ghost av = elems_view(a@);
            proof {
                lemma_elems_view(a@);
            }
            let mut v: Vec<Work> = Vec::new();
            let n = a.len();
            for i in 0..n
                invariant
                    n == a.len(),
                    av == elems_view(a@),
                    av.len() == a@.len(),
                    jv_obj_get(fields_view(f@), name@) == Some(JsonV::Arr(av)),
                    forall|m: int| 0 <= m < n ==> av[m] == json_view(#[trigger] a@[m]),
                    v.deep_view().len() == i,
                    forall|m: int| 0 <= m < i ==> (#[trigger] dec_work_f()(av[m]))
                        == Some(v.deep_view()[m]),
            {
                match dec_work_node(&a[i]) {
                    Ok(x) => {
                        let ghost prevlen = v.deep_view().len();
                        v.push(x);
                        proof {
                            assert(v.deep_view().len() == prevlen + 1);
                            assert(dec_work_f()(av[i as int]) == Some(
                                v.deep_view()[i as int]));
                        }
                    },
                    Err(mut e) => {
                        proof {
                            assert(dec_work_f()(av[i as int]) is None);
                            assert(!all_some(av, dec_work_f()));
                        }
                        e.push_under(PathSeg::Index(i));
                        e.push_under(PathSeg::Field(name.to_owned()));
                        return Err(e);
                    },
                }
            }
            proof {
                assert(all_some(av, dec_work_f()));
                assert(v.deep_view() =~= dec_elems(av, dec_work_f()));
            }
            Ok(v)
        },
        _ => Err(DecodeError::at_field(name, DecodeReason::ExpectedArray)),
    }
}

fn dec_volunteer_list_field(f: &Vec<(String, Json)>, name: &str) -> (r: Result<
    Vec<Volunteer>,
    DecodeError,
>)
    ensures
        match r {
            Ok(v) => dec_list(fields_view(f@), name@, dec_volunteer_f()) == Some(v.deep_view()),
            Err(_) => dec_list(fields_view(f@), name@, dec_volunteer_f()) is None,
        },
{
    let j = match get_field(f, name) {
        None => {
            let v: Vec<Volunteer> = Vec::new();
            proof {
                assert(v.deep_view() =~= Seq::<VolunteerView>::empty());
            }
            return Ok(v);
        },
        Some(j) => j,
    };
    match j {
        Json::Null => {
            let v: Vec<Volunteer> = Vec::new();
            proof {
                assert(v.deep_view() =~= Seq::<VolunteerView>::empty());
            }
            Ok(v)
        },
        Json::Arr(a) => {
            let ghost av = elems_view(a@);
            proof {
                lemma_elems_view(a@);
            }
            let mut v: Vec<Volunteer> = Vec::new();
            let n = a.len();
            for i in 0..n
                invariant
                    n == a.len(),
                    av == elems_view(a@),
                    av.len() == a@.len(),
                    jv_obj_get(fields_view(f@), name@) == Some(JsonV::Arr(av)),
                    forall|m: int| 0 <= m < n ==> av[m] == json_view(#[trigger] a@[m]),
                    v.deep_view().len() == i,
                    forall|m: int| 0 <= m < i ==> (#[trigger] dec_volunteer_f()(av[m]))
                        == Some(v.deep_view()[m]),
            {
                match dec_volunteer_node(&a[i]) {
                    Ok(x) => {
                        let ghost prevlen = v.deep_view().len();
                        v.push(x);
                        proof {
                            assert(v.deep_view().len() == prevlen + 1);
                            assert(dec_volunteer_f()(av[i as int]) == Some(
                                v.deep_view()[i as int]));
                        }
                    },
                    Err(mut e) => {
                        proof {
                            assert(dec_volunteer_f()(av[i as int]) is None);
                            assert(!all_some(av, dec_volunteer_f()));
                        }
                        e.push_under(PathSeg::Index(i));
                        e.push_under(PathSeg::Field(name.to_owned()));
                        return Err(e);
                    },
                }
            }
            proof {
                assert(all_some(av, dec_volunteer_f()));
                assert(v.deep_view() =~= dec_elems(av, dec_volunteer_f()));
            }
            Ok(v)
        },
        _ => Err(DecodeError::at_field(name, DecodeReason::ExpectedArray)),
    }
}

fn dec_education_list_field(f: &Vec<(String, Json)>, name: &str) -> (r: Result<
    Vec<Education>,
    DecodeError,
>)
    ensures
        match r {
            Ok(v) => dec_list(fields_view(f@), name@, dec_education_f()) == Some(v.deep_view()),
            Err(_) => dec_list(fields_view(f@), name@, dec_education_f()) is None,
        },
{
    let j = match get_field(f, name) {
        None => {
            let v: Vec<Education> = Vec::new();
            proof {
                assert(v.deep_view() =~= Seq::<EducationView>::empty());
            }
            return Ok(v);
        },
        Some(j) => j,
    };
    match j {
        Json::Null => {
            let v: Vec<Education> = Vec::new();
            proof {
                assert(v.deep_view() =~= Seq::<EducationView>::empty());
            }
            Ok(v)
        },
        Json::Arr(a) => {
            let ghost av = elems_view(a@);
            proof {
                lemma_elems_view(a@);
            }
            let mut v: Vec<Education> = Vec::new();
            let n = a.len();
            for i in 0..n
                invariant
                    n == a.len(),
                    av == elems_view(a@),
                    av.len() == a@.len(),
                    jv_obj_get(fields_view(f@), name@) == Some(JsonV::Arr(av)),
                    forall|m: int| 0 <= m < n ==> av[m] == json_view(#[trigger] a@[m]),
                    v.deep_view().len() == i,
                    forall|m: int| 0 <= m < i ==> (#[trigger] dec_education_f()(av[m]))
                        == Some(v.deep_view()[m]),
            {
                match dec_education_node(&a[i]) {
                    Ok(x) => {
                        let ghost prevlen = v.deep_view().len();
                        v.push(x);
                        proof {
                            assert(v.deep_view().len() == prevlen + 1);
                            assert(dec_education_f()(av[i as int]) == Some(
                                v.deep_view()[i as int]));
                        }
                    },
                    Err(mut e) => {
                        proof {
                            assert(dec_education_f()(av[i as int]) is None);
                            assert(!all_some(av, dec_education_f()));
                        }
                        e.push_under(PathSeg::Index(i));
                        e.push_under(PathSeg::Field(name.to_owned()));
                        return Err(e);
                    },
                }
            }
            proof {
                assert(all_some(av, dec_education_f()));
                assert(v.deep_view() =~= dec_elems(av, dec_education_f()));
            }
            Ok(v)
        },
        _ => Err(DecodeError::at_field(name, DecodeReason::ExpectedArray)),
    }
}

fn dec_award_list_field(f: &Vec<(String, Json)>, name: &str) -> (r: Result<
    Vec<Award>,
    DecodeError,
>)
    ensures
        match r {
            Ok(v) => dec_list(fields_view(f@), name@, dec_award_f()) == Some(v.deep_view()),
            Err(_) => dec_list(fields_view(f@), name@, dec_award_f()) is None,
        },
{
    let j = match get_field(f, name) {
        None => {
            let v: Vec<Award> = Vec::new();
            proof {
                assert(v.deep_view() =~= Seq::<AwardView>::empty());
            }
            return Ok(v);
        },
        Some(j) => j,
    };
    match j {
        Json::Null => {
            let v: Vec<Award> = Vec::new();
            proof {
                assert(v.deep_view() =~= Seq::<AwardView>::empty());
            }
            Ok(v)
        },
        Json::Arr(a) => {
            let ghost av = elems_view(a@);
            proof {
                lemma_elems_view(a@);
            }
            let mut v: Vec<Award> = Vec::new();
            let n = a.len();
            for i in 0..n
                invariant
                    n == a.len(),
                    av == elems_view(a@),
                    av.len() == a@.len(),
                    jv_obj_get(fields_view(f@), name@) == Some(JsonV::Arr(av)),
                    forall|m: int| 0 <= m < n ==> av[m] == json_view(#[trigger] a@[m]),
                    v.deep_view().len() == i,
                    forall|m: int| 0 <= m < i ==> (#[trigger] dec_award_f()(av[m]))
                        == Some(v.deep_view()[m]),
            {
                match dec_award_node(&a[i]) {
                    Ok(x) => {
                        let ghost prevlen = v.deep_view().len();
                        v.push(x);
                        proof {
                            assert(v.deep_view().len() == prevlen + 1);
                            assert(dec_award_f()(av[i as int]) == Some(
                                v.deep_view()[i as int]));
                        }
                    },
                    Err(mut e) => {
                        proof {
                            assert(dec_award_f()(av[i as int]) is None);
                            assert(!all_some(av, dec_award_f()));
                        }
                        e.push_under(PathSeg::Index(i));
                        e.push_under(PathSeg::Field(name.to_owned()));
                        return Err(e);
                    },
                }
            }
            proof {
                assert(all_some(av, dec_award_f()));
                assert(v.deep_view() =~= dec_elems(av, dec_award_f()));
            }
            Ok(v)
        },
        _ => Err(DecodeError::at_field(name, DecodeReason::ExpectedArray)),
    }
}

fn dec_certificate_list_field(f: &Vec<(String, Json)>, name: &str) -> (r: Result<
    Vec<Certificate>,
    DecodeError,
>)
    ensures
        match r {
            Ok(v) => dec_list(fields_view(f@), name@, dec_certificate_f()) == Some(v.deep_view()),
            Err(_) => dec_list(fields_view(f@), name@, dec_certificate_f()) is None,
        },
{
    let j = match get_field(f, name) {
        None => {
            let v: Vec<Certificate> = Vec::new();
            proof {
                assert(v.deep_view() =~= Seq::<CertificateView>::empty());
            }
            return Ok(v);
        },
        Some(j) => j,
    };
    match j {
        Json::Null => {
            let v: Vec<Certificate> = Vec::new();
            proof {
                assert(v.deep_view() =~= Seq::<CertificateView>::empty());
            }
            Ok(v)
        },
        Json::Arr(a) => {
            let ghost av = elems_view(a@);
            proof {
                lemma_elems_view(a@);
            }
            let mut v: Vec<Certificate> = Vec::new();
            let n = a.len();
            for i in 0..n
                invariant
                    n == a.len(),
                    av == elems_view(a@),
                    av.len() == a@.len(),
                    jv_obj_get(fields_view(f@), name@) == Some(JsonV::Arr(av)),
                    forall|m: int| 0 <= m < n ==> av[m] == json_view(#[trigger] a@[m]),
                    v.deep_view().len() == i,
                    forall|m: int| 0 <= m < i ==> (#[trigger] dec_certificate_f()(av[m]))
                        == Some(v.deep_view()[m]),
            {
                match dec_certificate_node(&a[i]) {
                    Ok(x) => {
                        let ghost prevlen = v.deep_view().len();
                        v.push(x);
                        proof {
                            assert(v.deep_view().len() == prevlen + 1);
                            assert(dec_certificate_f()(av[i as int]) == Some(
                                v.deep_view()[i as int]));
                        }
                    },
                    Err(mut e) => {
                        proof {
                            assert(dec_certificate_f()(av[i as int]) is None);
                            assert(!all_some(av, dec_certificate_f()));
                        }
                        e.push_under(PathSeg::Index(i));
                        e.push_under(PathSeg::Field(name.to_owned()));
                        return Err(e);
                    },
                }
            }
            proof {
                assert(all_some(av, dec_certificate_f()));
                assert(v.deep_view() =~= dec_elems(av, dec_certificate_f()));
            }
            Ok(v)
        },
        _ => Err(DecodeError::at_field(name, DecodeReason::ExpectedArray)),
    }
}

fn dec_publication_list_field(f: &Vec<(String, Json)>, name: &str) -> (r: Result<
    Vec<Publication>,
    DecodeError,
>)
    ensures
        match r {
            Ok(v) => dec_list(fields_view(f@), name@, dec_publication_f()) == Some(v.deep_view()),
            Err(_) => dec_list(fields_view(f@), name@, dec_publication_f()) is None,
        },
{
    let j = match get_field(f, name) {
        None => {
            let v: Vec<Publication> = Vec::new();
            proof {
                assert(v.deep_view() =~= Seq::<PublicationView>::empty());
            }
            return Ok(v);
        },
        Some(j) => j,
    };
    match j {
        Json::Null => {
            let v: Vec<Publication> = Vec::new();
            proof {
                assert(v.deep_view() =~= Seq::<PublicationView>::empty());
            }
            Ok(v)
        },
        Json::Arr(a) => {
            let ghost av = elems_view(a@);
            proof {
                lemma_elems_view(a@);
            }
            let mut v: Vec<Publication> = Vec::new();
            let n = a.len();
            for i in 0..n
                invariant
                    n == a.len(),
                    av == elems_view(a@),
                    av.len() == a@.len(),
                    jv_obj_get(fields_view(f@), name@) == Some(JsonV::Arr(av)),
                    forall|m: int| 0 <= m < n ==> av[m] == json_view(#[trigger] a@[m]),
                    v.deep_view().len() == i,
                    forall|m: int| 0 <= m < i ==> (#[trigger] dec_publication_f()(av[m]))
                        == Some(v.deep_view()[m]),
            {
                match dec_publication_node(&a[i]) {
                    Ok(x) => {
                        let ghost prevlen = v.deep_view().len();
                        v.push(x);
                        proof {
                            assert(v.deep_view().len() == prevlen + 1);
                            assert(dec_publication_f()(av[i as int]) == Some(
                                v.deep_view()[i as int]));
                        }
                    },
                    Err(mut e) => {
                        proof {
                            assert(dec_publication_f()(av[i as int]) is None);
                            assert(!all_some(av, dec_publication_f()));
                        }
                        e.push_under(PathSeg::Index(i));
                        e.push_under(PathSeg::Field(name.to_owned()));
                        return Err(e);
                    },
                }
            }
            proof {
                assert(all_some(av, dec_publication_f()));
                assert(v.deep_view() =~= dec_elems(av, dec_publication_f()));
            }
            Ok(v)
        },
        _ => Err(DecodeError::at_field(name, DecodeReason::ExpectedArray)),
    }
}

fn dec_skill_list_field(f: &Vec<(String, Json)>, name: &str) -> (r: Result<
    Vec<Skill>,
    DecodeError,
>)
    ensures
        match r {
            Ok(v) => dec_list(fields_view(f@), name@, dec_skill_f()) == Some(v.deep_view()),
            Err(_) => dec_list(fields_view(f@), name@, dec_skill_f()) is None,
        },
{
    let j = match get_field(f, name) {
        None => {
            let v: Vec<Skill> = Vec::new();
            proof {
                assert(v.deep_view() =~= Seq::<SkillView>::empty());
            }
            return Ok(v);
        },
        Some(j) => j,
    };
    match j {
        Json::Null => {
            let v: Vec<Skill> = Vec::new();
            proof {
                assert(v.deep_view() =~= Seq::<SkillView>::empty());
            }
            Ok(v)
        },
        Json::Arr(a) => {
            let ghost av = elems_view(a@);
            proof {
                lemma_elems_view(a@);
            }
            let mut v: Vec<Skill> = Vec::new();
            let n = a.len();
            for i in 0..n
                invariant
                    n == a.len(),
                    av == elems_view(a@),
                    av.len() == a@.len(),
                    jv_obj_get(fields_view(f@), name@) == Some(JsonV::Arr(av)),
                    forall|m: int| 0 <= m < n ==> av[m] == json_view(#[trigger] a@[m]),
                    v.deep_view().len() == i,
                    forall|m: int| 0 <= m < i ==> (#[trigger] dec_skill_f()(av[m]))
                        == Some(v.deep_view()[m]),
            {
                match dec_skill_node(&a[i]) {
                    Ok(x) => {
                        let ghost prevlen = v.deep_view().len();
                        v.push(x);
                        proof {
                            assert(v.deep_view().len() == prevlen + 1);
                            assert(dec_skill_f()(av[i as int]) == Some(
                                v.deep_view()[i as int]));
                        }
                    },
                    Err(mut e) => {
                        proof {
                            assert(dec_skill_f()(av[i as int]) is None);
                            assert(!all_some(av, dec_skill_f()));
                        }
                        e.push_under(PathSeg::Index(i));
                        e.push_under(PathSeg::Field(name.to_owned()));
                        return Err(e);
                    },
                }
            }
            proof {
                assert(all_some(av, dec_skill_f()));
                assert(v.deep_view() =~= dec_elems(av, dec_skill_f()));
            }
            Ok(v)
        },
        _ => Err(DecodeError::at_field(name, DecodeReason::ExpectedArray)),
    }
}

fn dec_language_list_field(f: &Vec<(String, Json)>, name: &str) -> (r: Result<
    Vec<Language>,
    DecodeError,
>)
    ensures
        match r {
            Ok(v) => dec_list(fields_view(f@), name@, dec_language_f()) == Some(v.deep_view()),
            Err(_) => dec_list(fields_view(f@), name@, dec_language_f()) is None,
        },
{
    let j = match get_field(f, name) {
        None => {
            let v: Vec<Language> = Vec::new();
            proof {
                assert(v.deep_view() =~= Seq::<LanguageView>::empty());
            }
            return Ok(v);
        },
        Some(j) => j,
    };
    match j {
        Json::Null => {
            let v: Vec<Language> = Vec::new();
            proof {
                assert(v.deep_view() =~= Seq::<LanguageView>::empty());
            }
            Ok(v)
        },
        Json::Arr(a) => {
            let ghost av = elems_view(a@);
            proof {
                lemma_elems_view(a@);
            }
            let mut v: Vec<Language> = Vec::new();
            let n = a.len();
            for i in 0..n
                invariant
                    n == a.len(),
                    av == elems_view(a@),
                    av.len() == a@.len(),
                    jv_obj_get(fields_view(f@), name@) == Some(JsonV::Arr(av)),
                    forall|m: int| 0 <= m < n ==> av[m] == json_view(#[trigger] a@[m]),
                    v.deep_view().len() == i,
                    forall|m: int| 0 <= m < i ==> (#[trigger] dec_language_f()(av[m]))
                        == Some(v.deep_view()[m]),
            {
                match dec_language_node(&a[i]) {
                    Ok(x) => {
                        let ghost prevlen = v.deep_view().len();
                        v.push(x);
                        proof {
                            assert(v.deep_view().len() == prevlen + 1);
                            assert(dec_language_f()(av[i as int]) == Some(
                                v.deep_view()[i as int]));
                        }
                    },
                    Err(mut e) => {
                        proof {
                            assert(dec_language_f()(av[i as int]) is None);
                            assert(!all_some(av, dec_language_f()));
                        }
                        e.push_under(PathSeg::Index(i));
                        e.push_under(PathSeg::Field(name.to_owned()));
                        return Err(e);
                    },
                }
            }
            proof {
                assert(all_some(av, dec_language_f()));
                assert(v.deep_view() =~= dec_elems(av, dec_language_f()));
            }
            Ok(v)
        },
        _ => Err(DecodeError::at_field(name, DecodeReason::ExpectedArray)),
    }
}

fn dec_interest_list_field(f: &Vec<(String, Json)>, name: &str) -> (r: Result<
    Vec<Interest>,
    DecodeError,
>)
    ensures
        match r {
            Ok(v) => dec_list(fields_view(f@), name@, dec_interest_f()) == Some(v.deep_view()),
            Err(_) => dec_list(fields_view(f@), name@, dec_interest_f()) is None,
        },
{
    let j = match get_field(f, name) {
        None => {
            let v: Vec<Interest> = Vec::new();
            proof {
                assert(v.deep_view() =~= Seq::<InterestView>::empty());
            }
            return Ok(v);
        },
        Some(j) => j,
    };
    match j {
        Json::Null => {
            let v: Vec<Interest> = Vec::new();
            proof {
                assert(v.deep_view() =~= Seq::<InterestView>::empty());
            }
            Ok(v)
        },
        Json::Arr(a) => {
            let ghost av = elems_view(a@);
            proof {
                lemma_elems_view(a@);
            }
            let mut v: Vec<Interest> = Vec::new();
            let n = a.len();
            for i in 0..n
                invariant
                    n == a.len(),
                    av == elems_view(a@),
                    av.len() == a@.len(),
                    jv_obj_get(fields_view(f@), name@) == Some(JsonV::Arr(av)),
                    forall|m: int| 0 <= m < n ==> av[m] == json_view(#[trigger] a@[m]),
                    v.deep_view().len() == i,
                    forall|m: int| 0 <= m < i ==> (#[trigger] dec_interest_f()(av[m]))
                        == Some(v.deep_view()[m]),
            {
                match dec_interest_node(&a[i]) {
                    Ok(x) => {
                        let ghost prevlen = v.deep_view().len();
                        v.push(x);
                        proof {
                            assert(v.deep_view().len() == prevlen + 1);
                            assert(dec_interest_f()(av[i as int]) == Some(
                                v.deep_view()[i as int]));
                        }
                    },
                    Err(mut e) => {
                        proof {
                            assert(dec_interest_f()(av[i as int]) is None);
                            assert(!all_some(av, dec_interest_f()));
                        }
                        e.push_under(PathSeg::Index(i));
                        e.push_under(PathSeg::Field(name.to_owned()));
                        return Err(e);
                    },
                }
            }
            proof {
                assert(all_some(av, dec_interest_f()));
                assert(v.deep_view() =~= dec_elems(av, dec_interest_f()));
            }
            Ok(v)
        },
        _ => Err(DecodeError::at_field(name, DecodeReason::ExpectedArray)),
    }
}

fn dec_reference_list_field(f: &Vec<(String, Json)>, name: &str) -> (r: Result<
    Vec<Reference>,
    DecodeError,
>)
    ensures
        match r {
            Ok(v) => dec_list(fields_view(f@), name@, dec_reference_f()) == Some(v.deep_view()),
            Err(_) => dec_list(fields_view(f@), name@, dec_reference_f()) is None,
        },
{
    let j = match get_field(f, name) {
        None => {
            let v: Vec<Reference> = Vec::new();
            proof {
                assert(v.deep_view() =~= Seq::<ReferenceView>::empty());
            }
            return Ok(v);
        },
        Some(j) => j,
    };
    match j {
        Json::Null => {
            let v: Vec<Reference> = Vec::new();
            proof {
                assert(v.deep_view() =~= Seq::<ReferenceView>::empty());
            }
            Ok(v)
        },
        Json::Arr(a) => {
            let ghost av = elems_view(a@);
            proof {
                lemma_elems_view(a@);
            }
            let mut v: Vec<Reference> = Vec::new();
            let n = a.len();
            for i in 0..n
                invariant
                    n == a.len(),
                    av == elems_view(a@),
                    av.len() == a@.len(),
                    jv_obj_get(fields_view(f@), name@) == Some(JsonV::Arr(av)),
                    forall|m: int| 0 <= m < n ==> av[m] == json_view(#[trigger] a@[m]),
                    v.deep_view().len() == i,
                    forall|m: int| 0 <= m < i ==> (#[trigger] dec_reference_f()(av[m]))
                        == Some(v.deep_view()[m]),
            {
                match dec_reference_node(&a[i]) {
                    Ok(x) => {
                        let ghost prevlen = v.deep_view().len();
                        v.push(x);
                        proof {
                            assert(v.deep_view().len() == prevlen + 1);
                            assert(dec_reference_f()(av[i as int]) == Some(
                                v.deep_view()[i as int]));
                        }
                    },
                    Err(mut e) => {
                        proof {
                            assert(dec_reference_f()(av[i as int]) is None);
                            assert(!all_some(av, dec_reference_f()));
                        }
                        e.push_under(PathSeg::Index(i));
                        e.push_under(PathSeg::Field(name.to_owned()));
                        return Err(e);
                    },
                }
            }
            proof {
                assert(all_some(av, dec_reference_f()));
                assert(v.deep_view() =~= dec_elems(av, dec_reference_f()));
            }
            Ok(v)
        },
        _ => Err(DecodeError::at_field(name, DecodeReason::ExpectedArray)),
    }
}

fn dec_project_list_field(f: &Vec<(String, Json)>, name: &str) -> (r: Result<
    Vec<Project>,
    DecodeError,
>)
    ensures
        match r {
            Ok(v) => dec_list(fields_view(f@), name@, dec_project_f()) == Some(v.deep_view()),
            Err(_) => dec_list(fields_view(f@), name@, dec_project_f()) is None,
        },
{
    let j = match get_field(f, name) {
        None => {
            let v: Vec<Project> = Vec::new();
            proof {
                assert(v.deep_view() =~= Seq::<ProjectView>::empty());
            }
            return Ok(v);
        },
        Some(j) => j,
    };
    match j {
        Json::Null => {
            let v: Vec<Project> = Vec::new();
            proof {
                assert(v.deep_view() =~= Seq::<ProjectView>::empty());
            }
            Ok(v)
        },
        Json::Arr(a) => {
            let ghost av = elems_view(a@);
            proof {
                lemma_elems_view(a@);
            }
            let mut v: Vec<Project> = Vec::new();
            let n = a.len();
            for i in 0..n
                invariant
                    n == a.len(),
                    av == elems_view(a@),
                    av.len() == a@.len(),
                    jv_obj_get(fields_view(f@), name@) == Some(JsonV::Arr(av)),
                    forall|m: int| 0 <= m < n ==> av[m] == json_view(#[trigger] a@[m]),
                    v.deep_view().len() == i,
                    forall|m: int| 0 <= m < i ==> (#[trigger] dec_project_f()(av[m]))
                        == Some(v.deep_view()[m]),
            {
                match dec_project_node(&a[i]) {
                    Ok(x) => {
                        let ghost prevlen = v.deep_view().len();
                        v.push(x);
                        proof {
                            assert(v.deep_view().len() == prevlen + 1);
                            assert(dec_project_f()(av[i as int]) == Some(
                                v.deep_view()[i as int]));
                        }
                    },
                    Err(mut e) => {
                        proof {
                            assert(dec_project_f()(av[i as int]) is None);
                            assert(!all_some(av, dec_project_f()));
                        }
                        e.push_under(PathSeg::Index(i));
                        e.push_under(PathSeg::Field(name.to_owned()));
                        return Err(e);
                    },
                }
            }
            proof {
                assert(all_some(av, dec_project_f()));
                assert(v.deep_view() =~= dec_elems(av, dec_project_f()));
            }
            Ok(v)
        },
        _ => Err(DecodeError::at_field(name, DecodeReason::ExpectedArray)),
    }
}

fn dec_profile_list_field(f: &Vec<(String, Json)>, name: &str) -> (r: Result<
    Vec<Profile>,
    DecodeError,
>)
    ensures
        match r {
            Ok(v) => dec_list(fields_view(f@), name@, dec_profile_f()) == Some(v.deep_view()),
            Err(_) => dec_list(fields_view(f@), name@, dec_profile_f()) is None,
        },
{
    let j = match get_field(f, name) {
        None => {
            let v: Vec<Profile> = Vec::new();
            proof {
                assert(v.deep_view() =~= Seq::<ProfileView>::empty());
            }
            return Ok(v);
        },
        Some(j) => j,
    };
    match j {
        Json::Null => {
            let v: Vec<Profile> = Vec::new();
            proof {
                assert(v.deep_view() =~= Seq::<ProfileView>::empty());
            }
            Ok(v)
        },
        Json::Arr(a) => {
            let ghost av = elems_view(a@);
            proof {
                lemma_elems_view(a@);
            }
            let mut v: Vec<Profile> = Vec::new();
            let n = a.len();
            for i in 0..n
                invariant
                    n == a.len(),
                    av == elems_view(a@),
                    av.len() == a@.len(),
                    jv_obj_get(fields_view(f@), name@) == Some(JsonV::Arr(av)),
                    forall|m: int| 0 <= m < n ==> av[m] == json_view(#[trigger] a@[m]),
                    v.deep_view().len() == i,
                    forall|m: int| 0 <= m < i ==> (#[trigger] dec_profile_f()(av[m]))
                        == Some(v.deep_view()[m]),
            {
                match dec_profile_node(&a[i]) {
                    Ok(x) => {
                        let ghost prevlen = v.deep_view().len();
                        v.push(x);
                        proof {
                            assert(v.deep_view().len() == prevlen + 1);
                            assert(dec_profile_f()(av[i as int]) == Some(
                                v.deep_view()[i as int]));
                        }
                    },
                    Err(mut e) => {
                        proof {
                            assert(dec_profile_f()(av[i as int]) is None);
                            assert(!all_some(av, dec_profile_f()));
                        }
                        e.push_under(PathSeg::Index(i));
                        e.push_under(PathSeg::Field(name.to_owned()));
                        return Err(e);
                    },
                }
            }
            proof {
                assert(all_some(av, dec_profile_f()));
                assert(v.deep_view() =~= dec_elems(av, dec_profile_f()));
            }
            Ok(v)
        },
        _ => Err(DecodeError::at_field(name, DecodeReason::ExpectedArray)),
    }
}

fn dec_position_list_field(f: &Vec<(String, Json)>, name: &str) -> (r: Result<
    Vec<Position>,
    DecodeError,
>)
    ensures
        match r {
            Ok(v) => dec_list(fields_view(f@), name@, dec_position_f()) == Some(v.deep_view()),
            Err(_) => dec_list(fields_view(f@), name@, dec_position_f()) is None,
        },
{
    let j = match get_field(f, name) {
        None => {
            let v: Vec<Position> = Vec::new();
            proof {
                assert(v.deep_view() =~= Seq::<PositionView>::empty());
            }
            return Ok(v);
        },
        Some(j) => j,
    };
    match j {
        Json::Null => {
            let v: Vec<Position> = Vec::new();
            proof {
                assert(v.deep_view() =~= Seq::<PositionView>::empty());
            }
            Ok(v)
        },
        Json::Arr(a) => {
            let ghost av = elems_view(a@);
            proof {
                lemma_elems_view(a@);
            }
            let mut v: Vec<Position> = Vec::new();
            let n = a.len();
            for i in 0..n
                invariant
                    n == a.len(),
                    av == elems_view(a@),
                    av.len() == a@.len(),
                    jv_obj_get(fields_view(f@), name@) == Some(JsonV::Arr(av)),
                    forall|m: int| 0 <= m < n ==> av[m] == json_view(#[trigger] a@[m]),
                    v.deep_view().len() == i,
                    forall|m: int| 0 <= m < i ==> (#[trigger] dec_position_f()(av[m]))
                        == Some(v.deep_view()[m]),
            {
                match dec_position_node(&a[i]) {
                    Ok(x) => {
                        let ghost prevlen = v.deep_view().len();
                        v.push(x);
                        proof {
                            assert(v.deep_view().len() == prevlen + 1);
                            assert(dec_position_f()(av[i as int]) == Some(
                                v.deep_view()[i as int]));
                        }
                    },
                    Err(mut e) => {
                        proof {
                            assert(dec_position_f()(av[i as int]) is None);
                            assert(!all_some(av, dec_position_f()));
                        }
                        e.push_under(PathSeg::Index(i));
                        e.push_under(PathSeg::Field(name.to_owned()));
                        return Err(e);
                    },
                }
            }
            proof {
                assert(all_some(av, dec_position_f()));
                assert(v.deep_view() =~= dec_elems(av, dec_position_f()));
            }
            Ok(v)
        },
        _ => Err(DecodeError::at_field(name, DecodeReason::ExpectedArray)),
    }
}

fn dec_feature_list_field(f: &Vec<(String, Json)>, name: &str) -> (r: Result<
    Vec<Feature>,
    DecodeError,
>)
    ensures
        match r {
            Ok(v) => dec_list(fields_view(f@), name@, dec_feature_f()) == Some(v.deep_view()),
            Err(_) => dec_list(fields_view(f@), name@, dec_feature_f()) is None,
        },
{
    let j = match get_field(f, name) {
        None => {
            let v: Vec<Feature> = Vec::new();
            proof {
                assert(v.deep_view() =~= Seq::<FeatureView>::empty());
            }
            return Ok(v);
        },
        Some(j) => j,
    };
    match j {
        Json::Null => {
            let v: Vec<Feature> = Vec::new();
            proof {
                assert(v.deep_view() =~= Seq::<FeatureView>::empty());
            }
            Ok(v)
        },
        Json::Arr(a) => {
            let ghost av = elems_view(a@);
            proof {
                lemma_elems_view(a@);
            }
            let mut v: Vec<Feature> = Vec::new();
            let n = a.len();
            for i in 0..n
                invariant
                    n == a.len(),
                    av == elems_view(a@),
                    av.len() == a@.len(),
                    jv_obj_get(fields_view(f@), name@) == Some(JsonV::Arr(av)),
                    forall|m: int| 0 <= m < n ==> av[m] == json_view(#[trigger] a@[m]),
                    v.deep_view().len() == i,
                    forall|m: int| 0 <= m < i ==> (#[trigger] dec_feature_f()(av[m]))
                        == Some(v.deep_view()[m]),
            {
                match dec_feature_node(&a[i]) {
                    Ok(x) => {
                        let ghost prevlen = v.deep_view().len();
                        v.push(x);
                        proof {
                            assert(v.deep_view().len() == prevlen + 1);
                            assert(dec_feature_f()(av[i as int]) == Some(
                                v.deep_view()[i as int]));
                        }
                    },
                    Err(mut e) => {
                        proof {
                            assert(dec_feature_f()(av[i as int]) is None);
                            assert(!all_some(av, dec_feature_f()));
                        }
                        e.push_under(PathSeg::Index(i));
                        e.push_under(PathSeg::Field(name.to_owned()));
                        return Err(e);
                    },
                }
            }
            proof {
                assert(all_some(av, dec_feature_f()));
                assert(v.deep_view() =~= dec_elems(av, dec_feature_f()));
            }
            Ok(v)
        },
        _ => Err(DecodeError::at_field(name, DecodeReason::ExpectedArray)),
    }
}

fn dec_opt_basics_field(f: &Vec<(String, Json)>, name: &str) -> (r: Result<
    Option<Basics>,
    DecodeError,
>)
    ensures
        match r {
            Ok(v) => dec_opt_rec(fields_view(f@), name@, dec_basics_f()) == Some(v.deep_view()),
            Err(_) => dec_opt_rec(fields_view(f@), name@, dec_basics_f()) is None,
        },
{
    match get_field(f, name) {
        None => Ok(None),
        Some(j) => match j {
            Json::Null => Ok(None),
            _ => match dec_basics_node(j) {
                Ok(b) => Ok(Some(b)),
                Err(mut e) => {
                    e.push_under(PathSeg::Field(name.to_owned()));
                    Err(e)
                },
            },
        },
    }
}

fn dec_opt_meta_field(f: &Vec<(String, Json)>, name: &str) -> (r: Result<
    Option<Meta>,
    DecodeError,
>)
    ensures
        match r {
            Ok(v) => dec_opt_rec(fields_view(f@), name@, dec_meta_f()) == Some(v.deep_view()),
            Err(_) => dec_opt_rec(fields_view(f@), name@, dec_meta_f()) is None,
        },
{
    match get_field(f, name) {
        None => Ok(None),
        Some(j) => match j {
            Json::Null => Ok(None),
            _ => match dec_meta_node(j) {
                Ok(b) => Ok(Some(b)),
                Err(mut e) => {
                    e.push_under(PathSeg::Field(name.to_owned()));
                    Err(e)
                },
            },
        },
    }
}

fn dec_location_rec_field(f: &Vec<(String, Json)>, name: &str) -> (r: Result<
    Location,
    DecodeError,
>)
    ensures
        match r {
            Ok(v) => dec_rec(fields_view(f@), name@, dec_location_f(), LocationView::empty())
                == Some(v.deep_view()),
            Err(_) => dec_rec(fields_view(f@), name@, dec_location_f(), LocationView::empty())
                is None,
        },
{
    match get_field(f, name) {
        None => Ok(Location::default()),
        Some(j) => match j {
            Json::Null => Ok(Location::default()),
            _ => match dec_location_node(j) {
                Ok(b) => Ok(b),
                Err(mut e) => {
                    e.push_under(PathSeg::Field(name.to_owned()));
                    Err(e)
                },
            },
        },
    }
}

/// Decode a wire value as one [`Resume`].
pub fn dec_resume_node(j: &Json) -> (r: Result<Resume, DecodeError>)
    ensures
        match r {
            Ok(v) => dec_resume(j.deep_view()) == Some(v.deep_view()),
            Err(_) => dec_resume(j.deep_view()) is None,
        },
{
    let f = match j {
        Json::Obj(f) => f,
        _ => {
            return Err(DecodeError::here(DecodeReason::ExpectedObject));
        },
    };
    let basics = match dec_opt_basics_field(f, "basics") {
        Ok(x) => x,
        Err(e) => {
            return Err(e);
        },
    };
    let work = match dec_work_list_field(f, "work") {
        Ok(x) => x,
        Err(e) => {
            return Err(e);
        },
    };
    let volunteer = match dec_volunteer_list_field(f, "volunteer") {
        Ok(x) => x,
        Err(e) => {
            return Err(e);
        },
    };
    let education = match dec_education_list_field(f, "education") {
        Ok(x) => x,
        Err(e) => {
            return Err(e);
        },
    };
    let awards = match dec_award_list_field(f, "awards") {
        Ok(x) => x,
        Err(e) => {
            return Err(e);
        },
    };
    let certificates = match dec_certificate_list_field(f, "certificates") {
        Ok(x) => x,
        Err(e) => {
            return Err(e);
        },
    };
    let publications = match dec_publication_list_field(f, "publications") {
        Ok(x) => x,
        Err(e) => {
            return Err(e);
        },
    };
    let skills = match dec_skill_list_field(f, "skills") {
        Ok(x) => x,
        Err(e) => {
            return Err(e);
        },
    };
    let languages = match dec_language_list_field(f, "languages") {
        Ok(x) => x,
        Err(e) => {
            return Err(e);
        },
    };
    let interests = match dec_interest_list_field(f, "interests") {
        Ok(x) => x,
        Err(e) => {
            return Err(e);
        },
    };
    let references = match dec_reference_list_field(f, "references") {
        Ok(x) => x,
        Err(e) => {
            return Err(e);
        },
    };
    let projects = match dec_project_list_field(f, "projects") {
        Ok(x) => x,
        Err(e) => {
            return Err(e);
        },
    };
    let side_projects = match dec_project_list_field(f, "sideProjects") {
        Ok(x) => x,
        Err(e) => {
            return Err(e);
        },
    };
    let meta = match dec_opt_meta_field(f, "meta") {
        Ok(x) => x,
        Err(e) => {
            return Err(e);
        },
    };
    let r = Resume {
        basics,
        work,
        volunteer,
        education,
        awards,
        certificates,
        publications,
        skills,
        languages,
        interests,
        references,
        projects,
        side_projects,
        meta,
    };
    proof {
        assert(dec_resume_fields(fields_view(f@)).unwrap() =~~= r.deep_view());
    }
    Ok(r)
}

/// Decode a wire value as one [`Basics`].
pub fn dec_basics_node(j: &Json) -> (r: Result<Basics, DecodeError>)
    ensures
        match r {
            Ok(v) => dec_basics(j.deep_view()) == Some(v.deep_view()),
            Err(_) => dec_basics(j.deep_view()) is None,
        },
{
    let f = match j {
        Json::Obj(f) => f,
        _ => {
            return Err(DecodeError::here(DecodeReason::ExpectedObject));
        },
    };
    let name = match dec_opt_str_field(f, "name") {
        Ok(x) => x,
        Err(e) => {
            return Err(e);
        },
    };
    let label = match dec_opt_str_field(f, "label") {
        Ok(x) => x,
        Err(e) => {
            return Err(e);
        },
    };
    let image = match dec_opt_str_field(f, "image") {
        Ok(x) => x,
        Err(e) => {
            return Err(e);
        },
    };
    let email = match dec_opt_str_field(f, "email") {
        Ok(x) => x,
        Err(e) => {
            return Err(e);
        },
    };
    let phone = match dec_opt_str_field(f, "phone") {
        Ok(x) => x,
        Err(e) => {
            return Err(e);
        },
    };
    let url = match dec_opt_str_field(f, "url") {
        Ok(x) => x,
        Err(e) => {
            return Err(e);
        },
    };
    let summary = match dec_opt_str_field(f, "summary") {
        Ok(x) => x,
        Err(e) => {
            return Err(e);
        },
    };
    let location = match dec_location_rec_field(f, "location") {
        Ok(x) => x,
        Err(e) => {
            return Err(e);
        },
    };
    let profiles = match dec_profile_list_field(f, "profiles") {
        Ok(x) => x,
        Err(e) => {
            return Err(e);
        },
    };
    let r = Basics {
        name,
        label,
        image,
        email,
        phone,
        url,
        summary,
        location,
        profiles,
    };
    proof {
        assert(dec_basics_fields(fields_view(f@)).unwrap() =~~= r.deep_view());
    }
    Ok(r)
}

/// Decode a wire value as one [`Location`].
pub fn dec_location_node(j: &Json) -> (r: Result<Location, DecodeError>)
    ensures
        match r {
            Ok(v) => dec_location(j.deep_view()) == Some(v.deep_view()),
            Err(_) => dec_location(j.deep_view()) is None,
        },
{
    let f = match j {
        Json::Obj(f) => f,
        _ => {
            return Err(DecodeError::here(DecodeReason::ExpectedObject));
        },
    };
    let address = match dec_opt_str_field(f, "address") {
        Ok(x) => x,
        Err(e) => {
            return Err(e);
        },
    };
    let postal_code = match dec_opt_str_field(f, "postalCode") {
        Ok(x) => x,
        Err(e) => {
            return Err(e);
        },
    };
    let city = match dec_opt_str_field(f, "city") {
        Ok(x) => x,
        Err(e) => {
            return Err(e);
        },
    };
    let country_code = match dec_opt_str_field(f, "countryCode") {
        Ok(x) => x,
        Err(e) => {
            return Err(e);
        },
    };
    let region = match dec_opt_str_field(f, "region") {
        Ok(x) => x,
        Err(e) => {
            return Err(e);
        },
    };
    let r = Location {
        address,
        postal_code,
        city,
        country_code,
        region,
    };
    proof {
        assert(dec_location_fields(fields_view(f@)).unwrap() =~~= r.deep_view());
    }
    Ok(r)
}

/// Decode a wire value as one [`Profile`].
pub fn dec_profile_node(j: &Json) -> (r: Result<Profile, DecodeError>)
    ensures
        match r {
            Ok(v) => dec_profile(j.deep_view()) == Some(v.deep_view()),
            Err(_) => dec_profile(j.deep_view()) is None,
        },
{
    let f = match j {
        Json::Obj(f) => f,
        _ => {
            return Err(DecodeError::here(DecodeReason::ExpectedObject));
        },
    };
    let network = match dec_opt_str_field(f, "network") {
        Ok(x) => x,
        Err(e) => {
            return Err(e);
        },
    };
    let username = match dec_opt_str_field(f, "username") {
        Ok(x) => x,
        Err(e) => {
            return Err(e);
        },
    };
    let url = match dec_opt_str_field(f, "url") {
        Ok(x) => x,
        Err(e) => {
            return Err(e);
        },
    };
    let r = Profile {
        network,
        username,
        url,
    };
    proof {
        assert(dec_profile_fields(fields_view(f@)).unwrap() =~~= r.deep_view());
    }
    Ok(r)
}

/// Decode a wire value as one [`Work`].
pub fn dec_work_node(j: &Json) -> (r: Result<Work, DecodeError>)
    ensures
        match r {
            Ok(v) => dec_work(j.deep_view()) == Some(v.deep_view()),
            Err(_) => dec_work(j.deep_view()) is None,
        },
{
    let f = match j {
        Json::Obj(f) => f,
        _ => {
            return Err(DecodeError::here(DecodeReason::ExpectedObject));
        },
    };
    let name = match dec_opt_str_field(f, "name") {
        Ok(x) => x,
        Err(e) => {
            return Err(e);
        },
    };
    let location = match dec_opt_str_field(f, "location") {
        Ok(x) => x,
        Err(e) => {
            return Err(e);
        },
    };
    let description = match dec_opt_str_field(f, "description") {
        Ok(x) => x,
        Err(e) => {
            return Err(e);
        },
    };
    let positions = match dec_position_list_field(f, "positions") {
        Ok(x) => x,
        Err(e) => {
            return Err(e);
        },
    };
    let position = match dec_opt_str_field(f, "position") {
        Ok(x) => x,
        Err(e) => {
            return Err(e);
        },
    };
    let url = match dec_opt_str_field(f, "url") {
        Ok(x) => x,
        Err(e) => {
            return Err(e);
        },
    };
    let start_date = match dec_opt_str_field(f, "startDate") {
        Ok(x) => x,
        Err(e) => {
            return Err(e);
        },
    };
    let end_date = match dec_opt_str_field(f, "endDate") {
        Ok(x) => x,
        Err(e) => {
            return Err(e);
        },
    };
    let highlights = match dec_highlight_list_field(f, "highlights") {
        Ok(x) => x,
        Err(e) => {
            return Err(e);
        },
    };
    let r = Work {
        name,
        location,
        description,
        positions,
        position,
        url,
        start_date,
        end_date,
        highlights,
    };
    proof {
        assert(dec_work_fields(fields_view(f@)).unwrap() =~~= r.deep_view());
    }
    Ok(r)
}

/// Decode a wire value as one [`Position`].
pub fn dec_position_node(j: &Json) -> (r: Result<Position, DecodeError>)
    ensures
        match r {
            Ok(v) => dec_position(j.deep_view()) == Some(v.deep_view()),
            Err(_) => dec_position(j.deep_view()) is None,
        },
{
    let f = match j {
        Json::Obj(f) => f,
        _ => {
            return Err(DecodeError::here(DecodeReason::ExpectedObject));
        },
    };
    let title = match dec_req_str_field(f, "title") {
        Ok(x) => x,
        Err(e) => {
            return Err(e);
        },
    };
    let start_date = match dec_opt_str_field(f, "startDate") {
        Ok(x) => x,
        Err(e) => {
            return Err(e);
        },
    };
    let end_date = match dec_opt_str_field(f, "endDate") {
        Ok(x) => x,
        Err(e) => {
            return Err(e);
        },
    };
    let r = Position {
        title,
        start_date,
        end_date,
    };
    proof {
        assert(dec_position_fields(fields_view(f@)).unwrap() =~~= r.deep_view());
    }
    Ok(r)
}

/// Decode a wire value as one [`Volunteer`].
pub fn dec_volunteer_node(j: &Json) -> (r: Result<Volunteer, DecodeError>)
    ensures
        match r {
            Ok(v) => dec_volunteer(j.deep_view()) == Some(v.deep_view()),
            Err(_) => dec_volunteer(j.deep_view()) is None,
        },
{
    let f = match j {
        Json::Obj(f) => f,
        _ => {
            return Err(DecodeError::here(DecodeReason::ExpectedObject));
        },
    };
    let organization = match dec_opt_str_field(f, "organization") {
        Ok(x) => x,
        Err(e) => {
            return Err(e);
        },
    };
    let position = match dec_opt_str_field(f, "position") {
        Ok(x) => x,
        Err(e) => {
            return Err(e);
        },
    };
    let url = match dec_opt_str_field(f, "url") {
        Ok(x) => x,
        Err(e) => {
            return Err(e);
        },
    };
    let start_date = match dec_opt_str_field(f, "startDate") {
        Ok(x) => x,
        Err(e) => {
            return Err(e);
        },
    };
    let end_date = match dec_opt_str_field(f, "endDate") {
        Ok(x) => x,
        Err(e) => {
            return Err(e);
        },
    };
    let summary = match dec_opt_str_field(f, "summary") {
        Ok(x) => x,
        Err(e) => {
            return Err(e);
        },
    };
    let highlights = match dec_highlight_list_field(f, "highlights") {
        Ok(x) => x,
        Err(e) => {
            return Err(e);
        },
    };
    let r = Volunteer {
        organization,
        position,
        url,
        start_date,
        end_date,
        summary,
        highlights,
    };
    proof {
        assert(dec_volunteer_fields(fields_view(f@)).unwrap() =~~= r.deep_view());
    }
    Ok(r)
}

/// Decode a wire value as one [`Education`].
pub fn dec_education_node(j: &Json) -> (r: Result<Education, DecodeError>)
    ensures
        match r {
            Ok(v) => dec_education(j.deep_view()) == Some(v.deep_view()),
            Err(_) => dec_education(j.deep_view()) is None,
        },
{
    let f = match j {
        Json::Obj(f) => f,
        _ => {
            return Err(DecodeError::here(DecodeReason::ExpectedObject));
        },
    };
    let institution = match dec_opt_str_field(f, "institution") {
        Ok(x) => x,
        Err(e) => {
            return Err(e);
        },
    };
    let url = match dec_opt_str_field(f, "url") {
        Ok(x) => x,
        Err(e) => {
            return Err(e);
        },
    };
    let degrees = match dec_str_list_field(f, "degrees") {
        Ok(x) => x,
        Err(e) => {
            return Err(e);
        },
    };
    let area = match dec_opt_str_field(f, "area") {
        Ok(x) => x,
        Err(e) => {
            return Err(e);
        },
    };
    let study_type = match dec_opt_str_field(f, "studyType") {
        Ok(x) => x,
        Err(e) => {
            return Err(e);
        },
    };
    let start_date = match dec_opt_str_field(f, "startDate") {
        Ok(x) => x,
        Err(e) => {
            return Err(e);
        },
    };
    let end_date = match dec_opt_str_field(f, "endDate") {
        Ok(x) => x,
        Err(e) => {
            return Err(e);
        },
    };
    let score = match dec_opt_str_field(f, "score") {
        Ok(x) => x,
        Err(e) => {
            return Err(e);
        },
    };
    let courses = match dec_course_list_field(f, "courses") {
        Ok(x) => x,
        Err(e) => {
            return Err(e);
        },
    };
    let r = Education {
        institution,
        url,
        degrees,
        area,
        study_type,
        start_date,
        end_date,
        score,
        courses,
    };
    proof {
        assert(dec_education_fields(fields_view(f@)).unwrap() =~~= r.deep_view());
    }
    Ok(r)
}

/// Decode a wire value as one [`Award`].
pub fn dec_award_node(j: &Json) -> (r: Result<Award, DecodeError>)
    ensures
        match r {
            Ok(v) => dec_award(j.deep_view()) == Some(v.deep_view()),
            Err(_) => dec_award(j.deep_view()) is None,
        },
{
    let f = match j {
        Json::Obj(f) => f,
        _ => {
            return Err(DecodeError::here(DecodeReason::ExpectedObject));
        },
    };
    let title = match dec_opt_str_field(f, "title") {
        Ok(x) => x,
        Err(e) => {
            return Err(e);
        },
    };
    let date = match dec_opt_str_field(f, "date") {
        Ok(x) => x,
        Err(e) => {
            return Err(e);
        },
    };
    let awarder = match dec_opt_str_field(f, "awarder") {
        Ok(x) => x,
        Err(e) => {
            return Err(e);
        },
    };
    let summary = match dec_opt_str_field(f, "summary") {
        Ok(x) => x,
        Err(e) => {
            return Err(e);
        },
    };
    let r = Award {
        title,
        date,
        awarder,
        summary,
    };
    proof {
        assert(dec_award_fields(fields_view(f@)).unwrap() =~~= r.deep_view());
    }
    Ok(r)
}

/// Decode a wire value as one [`Certificate`].
pub fn dec_certificate_node(j: &Json) -> (r: Result<Certificate, DecodeError>)
    ensures
        match r {
            Ok(v) => dec_certificate(j.deep_view()) == Some(v.deep_view()),
            Err(_) => dec_certificate(j.deep_view()) is None,
        },
{
    let f = match j {
        Json::Obj(f) => f,
        _ => {
            return Err(DecodeError::here(DecodeReason::ExpectedObject));
        },
    };
    let name = match dec_opt_str_field(f, "name") {
        Ok(x) => x,
        Err(e) => {
            return Err(e);
        },
    };
    let date = match dec_opt_str_field(f, "date") {
        Ok(x) => x,
        Err(e) => {
            return Err(e);
        },
    };
    let url = match dec_opt_str_field(f, "url") {
        Ok(x) => x,
        Err(e) => {
            return Err(e);
        },
    };
    let issuer = match dec_opt_str_field(f, "issuer") {
        Ok(x) => x,
        Err(e) => {
            return Err(e);
        },
    };
    let r = Certificate {
        name,
        date,
        url,
        issuer,
    };
    proof {
        assert(dec_certificate_fields(fields_view(f@)).unwrap() =~~= r.deep_view());
    }
    Ok(r)
}

/// Decode a wire value as one [`Publication`].
pub fn dec_publication_node(j: &Json) -> (r: Result<Publication, DecodeError>)
    ensures
        match r {
            Ok(v) => dec_publication(j.deep_view()) == Some(v.deep_view()),
            Err(_) => dec_publication(j.deep_view()) is None,
        },
{
    let f = match j {
        Json::Obj(f) => f,
        _ => {
            return Err(DecodeError::here(DecodeReason::ExpectedObject));
        },
    };
    let name = match dec_opt_str_field(f, "name") {
        Ok(x) => x,
        Err(e) => {
            return Err(e);
        },
    };
    let publisher = match dec_opt_str_field(f, "publisher") {
        Ok(x) => x,
        Err(e) => {
            return Err(e);
        },
    };
    let release_date = match dec_opt_str_field(f, "releaseDate") {
        Ok(x) => x,
        Err(e) => {
            return Err(e);
        },
    };
    let url = match dec_opt_str_field(f, "url") {
        Ok(x) => x,
        Err(e) => {
            return Err(e);
        },
    };
    let summary = match dec_opt_str_field(f, "summary") {
        Ok(x) => x,
        Err(e) => {
            return Err(e);
        },
    };
    let r = Publication {
        name,
        publisher,
        release_date,
        url,
        summary,
    };
    proof {
        assert(dec_publication_fields(fields_view(f@)).unwrap() =~~= r.deep_view());
    }
    Ok(r)
}

/// Decode a wire value as one [`Skill`].
pub fn dec_skill_node(j: &Json) -> (r: Result<Skill, DecodeError>)
    ensures
        match r {
            Ok(v) => dec_skill(j.deep_view()) == Some(v.deep_view()),
            Err(_) => dec_skill(j.deep_view()) is None,
        },
{
    let f = match j {
        Json::Obj(f) => f,
        _ => {
            return Err(DecodeError::here(DecodeReason::ExpectedObject));
        },
    };
    let name = match dec_opt_str_field(f, "name") {
        Ok(x) => x,
        Err(e) => {
            return Err(e);
        },
    };
    let level = match dec_opt_str_field(f, "level") {
        Ok(x) => x,
        Err(e) => {
            return Err(e);
        },
    };
    let keywords = match dec_keyword_list_field(f, "keywords") {
        Ok(x) => x,
        Err(e) => {
            return Err(e);
        },
    };
    let r = Skill {
        name,
        level,
        keywords,
    };
    proof {
        assert(dec_skill_fields(fields_view(f@)).unwrap() =~~= r.deep_view());
    }
    Ok(r)
}

/// Decode a wire value as one [`Language`].
pub fn dec_language_node(j: &Json) -> (r: Result<Language, DecodeError>)
    ensures
        match r {
            Ok(v) => dec_language(j.deep_view()) == Some(v.deep_view()),
            Err(_) => dec_language(j.deep_view()) is None,
        },
{
    let f = match j {
        Json::Obj(f) => f,
        _ => {
            return Err(DecodeError::here(DecodeReason::ExpectedObject));
        },
    };
    let language = match dec_opt_str_field(f, "language") {
        Ok(x) => x,
        Err(e) => {
            return Err(e);
        },
    };
    let fluency = match dec_opt_str_field(f, "fluency") {
        Ok(x) => x,
        Err(e) => {
            return Err(e);
        },
    };
    let r = Language {
        language,
        fluency,
    };
    proof {
        assert(dec_language_fields(fields_view(f@)).unwrap() =~~= r.deep_view());
    }
    Ok(r)
}

/// Decode a wire value as one [`Interest`].
pub fn dec_interest_node(j: &Json) -> (r: Result<Interest, DecodeError>)
    ensures
        match r {
            Ok(v) => dec_interest(j.deep_view()) == Some(v.deep_view()),
            Err(_) => dec_interest(j.deep_view()) is None,
        },
{
    let f = match j {
        Json::Obj(f) => f,
        _ => {
            return Err(DecodeError::here(DecodeReason::ExpectedObject));
        },
    };
    let name = match dec_opt_str_field(f, "name") {
        Ok(x) => x,
        Err(e) => {
            return Err(e);
        },
    };
    let keywords = match dec_keyword_list_field(f, "keywords") {
        Ok(x) => x,
        Err(e) => {
            return Err(e);
        },
    };
    let r = Interest {
        name,
        keywords,
    };
    proof {
        assert(dec_interest_fields(fields_view(f@)).unwrap() =~~= r.deep_view());
    }
    Ok(r)
}

/// Decode a wire value as one [`Reference`].
pub fn dec_reference_node(j: &Json) -> (r: Result<Reference, DecodeError>)
    ensures
        match r {
            Ok(v) => dec_reference(j.deep_view()) == Some(v.deep_view()),
            Err(_) => dec_reference(j.deep_view()) is None,
        },
{
    let f = match j {
        Json::Obj(f) => f,
        _ => {
            return Err(DecodeError::here(DecodeReason::ExpectedObject));
        },
    };
    let name = match dec_opt_str_field(f, "name") {
        Ok(x) => x,
        Err(e) => {
            return Err(e);
        },
    };
    let reference = match dec_opt_str_field(f, "reference") {
        Ok(x) => x,
        Err(e) => {
            return Err(e);
        },
    };
    let r = Reference {
        name,
        reference,
    };
    proof {
        assert(dec_reference_fields(fields_view(f@)).unwrap() =~~= r.deep_view());
    }
    Ok(r)
}

/// Decode a wire value as one [`Project`].
pub fn dec_project_node(j: &Json) -> (r: Result<Project, DecodeError>)
    ensures
        match r {
            Ok(v) => dec_project(j.deep_view()) == Some(v.deep_view()),
            Err(_) => dec_project(j.deep_view()) is None,
        },
{
    let f = match j {
        Json::Obj(f) => f,
        _ => {
            return Err(DecodeError::here(DecodeReason::ExpectedObject));
        },
    };
    let name = match dec_opt_str_field(f, "name") {
        Ok(x) => x,
        Err(e) => {
            return Err(e);
        },
    };
    let description = match dec_opt_str_field(f, "description") {
        Ok(x) => x,
        Err(e) => {
            return Err(e);
        },
    };
    let highlights = match dec_highlight_list_field(f, "highlights") {
        Ok(x) => x,
        Err(e) => {
            return Err(e);
        },
    };
    let duties = match dec_duty_list_field(f, "duties") {
        Ok(x) => x,
        Err(e) => {
            return Err(e);
        },
    };
    let profits = match dec_profit_list_field(f, "profits") {
        Ok(x) => x,
        Err(e) => {
            return Err(e);
        },
    };
    let features = match dec_feature_list_field(f, "features") {
        Ok(x) => x,
        Err(e) => {
            return Err(e);
        },
    };
    let keywords = match dec_keyword_list_field(f, "keywords") {
        Ok(x) => x,
        Err(e) => {
            return Err(e);
        },
    };
    let start_date = match dec_opt_str_field(f, "startDate") {
        Ok(x) => x,
        Err(e) => {
            return Err(e);
        },
    };
    let end_date = match dec_opt_str_field(f, "endDate") {
        Ok(x) => x,
        Err(e) => {
            return Err(e);
        },
    };
    let url = match dec_opt_str_field(f, "url") {
        Ok(x) => x,
        Err(e) => {
            return Err(e);
        },
    };
    let roles = match dec_role_list_field(f, "roles") {
        Ok(x) => x,
        Err(e) => {
            return Err(e);
        },
    };
    let entity = match dec_opt_str_field(f, "entity") {
        Ok(x) => x,
        Err(e) => {
            return Err(e);
        },
    };
    let type_ = match dec_opt_str_field(f, "type") {
        Ok(x) => x,
        Err(e) => {
            return Err(e);
        },
    };
    let r = Project {
        name,
        description,
        highlights,
        duties,
        profits,
        features,
        keywords,
        start_date,
        end_date,
        url,
        roles,
        entity,
        type_,
    };
    proof {
        assert(dec_project_fields(fields_view(f@)).unwrap() =~~= r.deep_view());
    }
    Ok(r)
}

/// Decode a wire value as one [`Feature`].
pub fn dec_feature_node(j: &Json) -> (r: Result<Feature, DecodeError>)
    ensures
        match r {
            Ok(v) => dec_feature(j.deep_view()) == Some(v.deep_view()),
            Err(_) => dec_feature(j.deep_view()) is None,
        },
{
    let f = match j {
        Json::Obj(f) => f,
        _ => {
            return Err(DecodeError::here(DecodeReason::ExpectedObject));
        },
    };
    let name = match dec_req_str_field(f, "name") {
        Ok(x) => x,
        Err(e) => {
            return Err(e);
        },
    };
    let situation = match dec_req_str_field(f, "situation") {
        Ok(x) => x,
        Err(e) => {
            return Err(e);
        },
    };
    let task = match dec_req_str_field(f, "task") {
        Ok(x) => x,
        Err(e) => {
            return Err(e);
        },
    };
    let action = match dec_req_str_field(f, "action") {
        Ok(x) => x,
        Err(e) => {
            return Err(e);
        },
    };
    let result = match dec_req_str_field(f, "result") {
        Ok(x) => x,
        Err(e) => {
            return Err(e);
        },
    };
    let r = Feature {
        name,
        situation,
        task,
        action,
        result,
    };
    proof {
        assert(dec_feature_fields(fields_view(f@)).unwrap() =~~= r.deep_view());
    }
    Ok(r)
}

/// Decode a wire value as one [`Meta`].
pub fn dec_meta_node(j: &Json) -> (r: Result<Meta, DecodeError>)
    ensures
        match r {
            Ok(v) => dec_meta(j.deep_view()) == Some(v.deep_view()),
            Err(_) => dec_meta(j.deep_view()) is None,
        },
{
    let f = match j {
        Json::Obj(f) => f,
        _ => {
            return Err(DecodeError::here(DecodeReason::ExpectedObject));
        },
    };
    let canonical = match dec_opt_str_field(f, "canonical") {
        Ok(x) => x,
        Err(e) => {
            return Err(e);
        },
    };
    let version = match dec_opt_str_field(f, "version") {
        Ok(x) => x,
        Err(e) => {
            return Err(e);
        },
    };
    let last_modified = match dec_opt_str_field(f, "lastModified") {
        Ok(x) => x,
        Err(e) => {
            return Err(e);
        },
    };
    let r = Meta {
        canonical,
        version,
        last_modified,
    };
    proof {
        assert(dec_meta_fields(fields_view(f@)).unwrap() =~~= r.deep_view());
    }
    Ok(r)
}

/// Decode a wire value as a whole tree: the root must be an object.
pub fn decode(j: &Json) -> (r: Result<Resume, DecodeError>)
    ensures
        match r {
            Ok(t) => dec_resume(j.deep_view()) == Some(t.deep_view()),
            Err(_) => dec_resume(j.deep_view()) is None,
        },
{
    dec_resume_node(j)
}

} // verus!
