//! The encoder: each entity becomes a wire object whose members follow
//! the specification in `wire`, field by field and in field order.

use vstd::prelude::*;
use crate::json::{Json, JsonV, json_view, elems_view, fields_view};
use crate::model::{Resume, Basics, Location, Profile, Work, Position, Volunteer, Education, Award, Certificate, Publication, Skill, Language, Interest, Reference, Project, Feature, Meta, Highlight, Course, Keyword, Duty, Profit, Role};
use crate::wire::{seg, opt_str_val, list_val, jstr_f, enc_resume_fields, enc_resume, enc_basics_fields, enc_basics, enc_location_fields, enc_location, enc_profile_fields, enc_profile, enc_profile_f, enc_work_fields, enc_work, enc_work_f, enc_position_fields, enc_position, enc_position_f, enc_volunteer_fields, enc_volunteer, enc_volunteer_f, enc_education_fields, enc_education, enc_education_f, enc_award_fields, enc_award, enc_award_f, enc_certificate_fields, enc_certificate, enc_certificate_f, enc_publication_fields, enc_publication, enc_publication_f, enc_skill_fields, enc_skill, enc_skill_f, enc_language_fields, enc_language, enc_language_f, enc_interest_fields, enc_interest, enc_interest_f, enc_reference_fields, enc_reference, enc_reference_f, enc_project_fields, enc_project, enc_project_f, enc_feature_fields, enc_feature, enc_feature_f, enc_meta_fields, enc_meta};
use crate::util::{lemma_vec_deep, lemma_seq_deep_push, lemma_take_succ};

verus! {

broadcast use lemma_vec_deep, lemma_seq_deep_push;

fn put_opt_str(out: &mut Vec<(String, Json)>, name: &str, v: &Option<String>)
    ensures
        fields_view(final(out)@) == fields_view(old(out)@) + seg(name@, opt_str_val(v.deep_view())),
{
    match v {
        Some(s) => {
            let ghost prev = out@;
            out.push((name.to_owned(), Json::Str(s.clone())));
            proof {
                assert(out@.drop_last() =~= prev);
                assert(fields_view(out@) == fields_view(out@.drop_last()).push((
                    out@.last().0@, json_view(out@.last().1))));
                assert(out@.last().0@ == name@);
                assert(json_view(out@.last().1) == JsonV::Str(s@));
                assert(opt_str_val(v.deep_view()) == Some(JsonV::Str(s@)));
                assert(fields_view(out@) =~~= fields_view(prev) + seg(name@, opt_str_val(
                    v.deep_view())));
            }
        },
        None => {
            proof {
                assert(fields_view(out@) =~= fields_view(out@) + seg(name@, opt_str_val(
                    v.deep_view())));
            }
        },
    }
}

fn put_req_str(out: &mut Vec<(String, Json)>, name: &str, v: &String)
    ensures
        fields_view(final(out)@) == fields_view(old(out)@) + seg(name@, Some(JsonV::Str(v@))),
{
    let ghost prev = out@;
    out.push((name.to_owned(), Json::Str(v.clone())));
    proof {
        assert(out@.drop_last() =~= prev);
        assert(fields_view(out@) == fields_view(out@.drop_last()).push((
            out@.last().0@, json_view(out@.last().1))));
        assert(out@.last().0@ == name@);
        assert(json_view(out@.last().1) == JsonV::Str(v@));
        assert(fields_view(out@) =~~= fields_view(prev) + seg(name@, Some(JsonV::Str(v@))));
    }
}

fn put_str_list(out: &mut Vec<(String, Json)>, name: &str, items: &Vec<String>)
    ensures
        fields_view(final(out)@) == fields_view(old(out)@) + seg(name@, list_val(
            items.deep_view().map_values(jstr_f()))),
{
    let ghost target = items.deep_view().map_values(jstr_f());
    if items.len() == 0 {
        proof {
            assert(target.len() == 0);
            assert(fields_view(out@) =~= fields_view(out@) + seg(name@, list_val(target)));
        }
        return;
    }
    let mut arr: Vec<Json> = Vec::new();
    proof {
        assert(elems_view(arr@) =~= target.take(0));
    }
    let n = items.len();
    for i in 0..n
        invariant
            n == items.len(),
            target == items.deep_view().map_values(jstr_f()),
            elems_view(arr@) == target.take(i as int),
    {
        let ghost prev = arr@;
        arr.push(Json::Str(items[i].clone()));
        proof {
            assert(arr@.drop_last() =~= prev);
            assert(items.deep_view()[i as int] == items@[i as int].deep_view());
            assert(elems_view(arr@) == elems_view(arr@.drop_last()).push(json_view(
                arr@.last())));
            assert(target[i as int] == jstr_f()(items.deep_view()[i as int]));
            assert(json_view(arr@.last()) == target[i as int]);
            lemma_take_succ(target, i as int);
            assert(elems_view(arr@) == target.take(i + 1));
        }
    }
    proof {
        assert(target.take(n as int) =~= target);
    }
    let ghost prev = out@;
    out.push((name.to_owned(), Json::Arr(arr)));
    proof {
        assert(out@.drop_last() =~= prev);
        assert(fields_view(out@) == fields_view(out@.drop_last()).push((
            out@.last().0@, json_view(out@.last().1))));
        assert(out@.last().0@ == name@);
        assert(json_view(out@.last().1) == JsonV::Arr(target));
        assert(target.len() == items@.len());
        assert(list_val(target) == Some(JsonV::Arr(target)));
        assert(fields_view(out@) =~~= fields_view(prev) + seg(name@, list_val(target)));
    }
}

fn put_highlight_list(out: &mut Vec<(String, Json)>, name: &str, items: &Vec<Highlight>)
    ensures
        fields_view(final(out)@) == fields_view(old(out)@) + seg(name@, list_val(
            items.deep_view().map_values(jstr_f()))),
{
    let ghost target = items.deep_view().map_values(jstr_f());
    if items.len() == 0 {
        proof {
            assert(target.len() == 0);
            assert(fields_view(out@) =~= fields_view(out@) + seg(name@, list_val(target)));
        }
        return;
    }
    let mut arr: Vec<Json> = Vec::new();
    proof {
        assert(elems_view(arr@) =~= target.take(0));
    }
    let n = items.len();
    for i in 0..n
        invariant
            n == items.len(),
            target == items.deep_view().map_values(jstr_f()),
            elems_view(arr@) == target.take(i as int),
    {
        let ghost prev = arr@;
        arr.push(Json::Str(items[i].0.clone()));
        proof {
            assert(arr@.drop_last() =~= prev);
            assert(items.deep_view()[i as int] == items@[i as int].deep_view());
            assert(elems_view(arr@) == elems_view(arr@.drop_last()).push(json_view(
                arr@.last())));
            assert(target[i as int] == jstr_f()(items.deep_view()[i as int]));
            assert(json_view(arr@.last()) == target[i as int]);
            lemma_take_succ(target, i as int);
            assert(elems_view(arr@) == target.take(i + 1));
        }
    }
    proof {
        assert(target.take(n as int) =~= target);
    }
    let ghost prev = out@;
    out.push((name.to_owned(), Json::Arr(arr)));
    proof {
        assert(out@.drop_last() =~= prev);
        assert(fields_view(out@) == fields_view(out@.drop_last()).push((
            out@.last().0@, json_view(out@.last().1))));
        assert(out@.last().0@ == name@);
        assert(json_view(out@.last().1) == JsonV::Arr(target));
        assert(target.len() == items@.len());
        assert(list_val(target) == Some(JsonV::Arr(target)));
        assert(fields_view(out@) =~~= fields_view(prev) + seg(name@, list_val(target)));
    }
}

fn put_course_list(out: &mut Vec<(String, Json)>, name: &str, items: &Vec<Course>)
    ensures
        fields_view(final(out)@) == fields_view(old(out)@) + seg(name@, list_val(
            items.deep_view().map_values(jstr_f()))),
{
    let ghost target = items.deep_view().map_values(jstr_f());
    if items.len() == 0 {
        proof {
            assert(target.len() == 0);
            assert(fields_view(out@) =~= fields_view(out@) + seg(name@, list_val(target)));
        }
        return;
    }
    let mut arr: Vec<Json> = Vec::new();
    proof {
        assert(elems_view(arr@) =~= target.take(0));
    }
    let n = items.len();
    for i in 0..n
        invariant
            n == items.len(),
            target == items.deep_view().map_values(jstr_f()),
            elems_view(arr@) == target.take(i as int),
    {
        let ghost prev = arr@;
        arr.push(Json::Str(items[i].0.clone()));
        proof {
            assert(arr@.drop_last() =~= prev);
            assert(items.deep_view()[i as int] == items@[i as int].deep_view());
            assert(elems_view(arr@) == elems_view(arr@.drop_last()).push(json_view(
                arr@.last())));
            assert(target[i as int] == jstr_f()(items.deep_view()[i as int]));
            assert(json_view(arr@.last()) == target[i as int]);
            lemma_take_succ(target, i as int);
            assert(elems_view(arr@) == target.take(i + 1));
        }
    }
    proof {
        assert(target.take(n as int) =~= target);
    }
    let ghost prev = out@;
    out.push((name.to_owned(), Json::Arr(arr)));
    proof {
        assert(out@.drop_last() =~= prev);
        assert(fields_view(out@) == fields_view(out@.drop_last()).push((
            out@.last().0@, json_view(out@.last().1))));
        assert(out@.last().0@ == name@);
        assert(json_view(out@.last().1) == JsonV::Arr(target));
        assert(target.len() == items@.len());
        assert(list_val(target) == Some(JsonV::Arr(target)));
        assert(fields_view(out@) =~~= fields_view(prev) + seg(name@, list_val(target)));
    }
}

fn put_keyword_list(out: &mut Vec<(String, Json)>, name: &str, items: &Vec<Keyword>)
    ensures
        fields_view(final(out)@) == fields_view(old(out)@) + seg(name@, list_val(
            items.deep_view().map_values(jstr_f()))),
{
    let ghost target = items.deep_view().map_values(jstr_f());
    if items.len() == 0 {
        proof {
            assert(target.len() == 0);
            assert(fields_view(out@) =~= fields_view(out@) + seg(name@, list_val(target)));
        }
        return;
    }
    let mut arr: Vec<Json> = Vec::new();
    proof {
        assert(elems_view(arr@) =~= target.take(0));
    }
    let n = items.len();
    for i in 0..n
        invariant
            n == items.len(),
            target == items.deep_view().map_values(jstr_f()),
            elems_view(arr@) == target.take(i as int),
    {
        let ghost prev = arr@;
        arr.push(Json::Str(items[i].0.clone()));
        proof {
            assert(arr@.drop_last() =~= prev);
            assert(items.deep_view()[i as int] == items@[i as int].deep_view());
            assert(elems_view(arr@) == elems_view(arr@.drop_last()).push(json_view(
                arr@.last())));
            assert(target[i as int] == jstr_f()(items.deep_view()[i as int]));
            assert(json_view(arr@.last()) == target[i as int]);
            lemma_take_succ(target, i as int);
            assert(elems_view(arr@) == target.take(i + 1));
        }
    }
    proof {
        assert(target.take(n as int) =~= target);
    }
    let ghost prev = out@;
    out.push((name.to_owned(), Json::Arr(arr)));
    proof {
        assert(out@.drop_last() =~= prev);
        assert(fields_view(out@) == fields_view(out@.drop_last()).push((
            out@.last().0@, json_view(out@.last().1))));
        assert(out@.last().0@ == name@);
        assert(json_view(out@.last().1) == JsonV::Arr(target));
        assert(target.len() == items@.len());
        assert(list_val(target) == Some(JsonV::Arr(target)));
        assert(fields_view(out@) =~~= fields_view(prev) + seg(name@, list_val(target)));
    }
}

fn put_duty_list(out: &mut Vec<(String, Json)>, name: &str, items: &Vec<Duty>)
    ensures
        fields_view(final(out)@) == fields_view(old(out)@) + seg(name@, list_val(
            items.deep_view().map_values(jstr_f()))),
{
    let ghost target = items.deep_view().map_values(jstr_f());
    if items.len() == 0 {
        proof {
            assert(target.len() == 0);
            assert(fields_view(out@) =~= fields_view(out@) + seg(name@, list_val(target)));
        }
        return;
    }
    let mut arr: Vec<Json> = Vec::new();
    proof {
        assert(elems_view(arr@) =~= target.take(0));
    }
    let n = items.len();
    for i in 0..n
        invariant
            n == items.len(),
            target == items.deep_view().map_values(jstr_f()),
            elems_view(arr@) == target.take(i as int),
    {
        let ghost prev = arr@;
        arr.push(Json::Str(items[i].0.clone()));
        proof {
            assert(arr@.drop_last() =~= prev);
            assert(items.deep_view()[i as int] == items@[i as int].deep_view());
            assert(elems_view(arr@) == elems_view(arr@.drop_last()).push(json_view(
                arr@.last())));
            assert(target[i as int] == jstr_f()(items.deep_view()[i as int]));
            assert(json_view(arr@.last()) == target[i as int]);
            lemma_take_succ(target, i as int);
            assert(elems_view(arr@) == target.take(i + 1));
        }
    }
    proof {
        assert(target.take(n as int) =~= target);
    }
    let ghost prev = out@;
    out.push((name.to_owned(), Json::Arr(arr)));
    proof {
        assert(out@.drop_last() =~= prev);
        assert(fields_view(out@) == fields_view(out@.drop_last()).push((
            out@.last().0@, json_view(out@.last().1))));
        assert(out@.last().0@ == name@);
        assert(json_view(out@.last().1) == JsonV::Arr(target));
        assert(target.len() == items@.len());
        assert(list_val(target) == Some(JsonV::Arr(target)));
        assert(fields_view(out@) =~~= fields_view(prev) + seg(name@, list_val(target)));
    }
}

fn put_profit_list(out: &mut Vec<(String, Json)>, name: &str, items: &Vec<Profit>)
    ensures
        fields_view(final(out)@) == fields_view(old(out)@) + seg(name@, list_val(
            items.deep_view().map_values(jstr_f()))),
{
    let ghost target = items.deep_view().map_values(jstr_f());
    if items.len() == 0 {
        proof {
            assert(target.len() == 0);
            assert(fields_view(out@) =~= fields_view(out@) + seg(name@, list_val(target)));
        }
        return;
    }
    let mut arr: Vec<Json> = Vec::new();
    proof {
        assert(elems_view(arr@) =~= target.take(0));
    }
    let n = items.len();
    for i in 0..n
        invariant
            n == items.len(),
            target == items.deep_view().map_values(jstr_f()),
            elems_view(arr@) == target.take(i as int),
    {
        let ghost prev = arr@;
        arr.push(Json::Str(items[i].0.clone()));
        proof {
            assert(arr@.drop_last() =~= prev);
            assert(items.deep_view()[i as int] == items@[i as int].deep_view());
            assert(elems_view(arr@) == elems_view(arr@.drop_last()).push(json_view(
                arr@.last())));
            assert(target[i as int] == jstr_f()(items.deep_view()[i as int]));
            assert(json_view(arr@.last()) == target[i as int]);
            lemma_take_succ(target, i as int);
            assert(elems_view(arr@) == target.take(i + 1));
        }
    }
    proof {
        assert(target.take(n as int) =~= target);
    }
    let ghost prev = out@;
    out.push((name.to_owned(), Json::Arr(arr)));
    proof {
        assert(out@.drop_last() =~= prev);
        assert(fields_view(out@) == fields_view(out@.drop_last()).push((
            out@.last().0@, json_view(out@.last().1))));
        assert(out@.last().0@ == name@);
        assert(json_view(out@.last().1) == JsonV::Arr(target));
        assert(target.len() == items@.len());
        assert(list_val(target) == Some(JsonV::Arr(target)));
        assert(fields_view(out@) =~~= fields_view(prev) + seg(name@, list_val(target)));
    }
}

fn put_role_list(out: &mut Vec<(String, Json)>, name: &str, items: &Vec<Role>)
    ensures
        fields_view(final(out)@) == fields_view(old(out)@) + seg(name@, list_val(
            items.deep_view().map_values(jstr_f()))),
{
    let ghost target = items.deep_view().map_values(jstr_f());
    if items.len() == 0 {
        proof {
            assert(target.len() == 0);
            assert(fields_view(out@) =~= fields_view(out@) + seg(name@, list_val(target)));
        }
        return;
    }
    let mut arr: Vec<Json> = Vec::new();
    proof {
        assert(elems_view(arr@) =~= target.take(0));
    }
    let n = items.len();
    for i in 0..n
        invariant
            n == items.len(),
            target == items.deep_view().map_values(jstr_f()),
            elems_view(arr@) == target.take(i as int),
    {
        let ghost prev = arr@;
        arr.push(Json::Str(items[i].0.clone()));
        proof {
            assert(arr@.drop_last() =~= prev);
            assert(items.deep_view()[i as int] == items@[i as int].deep_view());
            assert(elems_view(arr@) == elems_view(arr@.drop_last()).push(json_view(
                arr@.last())));
            assert(target[i as int] == jstr_f()(items.deep_view()[i as int]));
            assert(json_view(arr@.last()) == target[i as int]);
            lemma_take_succ(target, i as int);
            assert(elems_view(arr@) == target.take(i + 1));
        }
    }
    proof {
        assert(target.take(n as int) =~= target);
    }
    let ghost prev = out@;
    out.push((name.to_owned(), Json::Arr(arr)));
    proof {
        assert(out@.drop_last() =~= prev);
        assert(fields_view(out@) == fields_view(out@.drop_last()).push((
            out@.last().0@, json_view(out@.last().1))));
        assert(out@.last().0@ == name@);
        assert(json_view(out@.last().1) == JsonV::Arr(target));
        assert(target.len() == items@.len());
        assert(list_val(target) == Some(JsonV::Arr(target)));
        assert(fields_view(out@) =~~= fields_view(prev) + seg(name@, list_val(target)));
    }
}

fn put_work_list(out: &mut Vec<(String, Json)>, name: &str, items: &Vec<Work>)
    ensures
        fields_view(final(out)@) == fields_view(old(out)@) + seg(name@, list_val(
            items.deep_view().map_values(enc_work_f()))),
{
    let ghost target = items.deep_view().map_values(enc_work_f());
    if items.len() == 0 {
        proof {
            assert(target.len() == 0);
            assert(fields_view(out@) =~= fields_view(out@) + seg(name@, list_val(target)));
        }
        return;
    }
    let mut arr: Vec<Json> = Vec::new();
    proof {
        assert(elems_view(arr@) =~= target.take(0));
    }
    let n = items.len();
    for i in 0..n
        invariant
            n == items.len(),
            target == items.deep_view().map_values(enc_work_f()),
            elems_view(arr@) == target.take(i as int),
    {
        let ghost prev = arr@;
        arr.push(enc_work_node(&items[i]));
        proof {
            assert(arr@.drop_last() =~= prev);
            assert(items.deep_view()[i as int] == items@[i as int].deep_view());
            assert(elems_view(arr@) == elems_view(arr@.drop_last()).push(json_view(
                arr@.last())));
            assert(target[i as int] == enc_work_f()(items.deep_view()[i as int]));
            assert(json_view(arr@.last()) == target[i as int]);
            lemma_take_succ(target, i as int);
            assert(elems_view(arr@) == target.take(i + 1));
        }
    }
    proof {
        assert(target.take(n as int) =~= target);
    }
    let ghost prev = out@;
    out.push((name.to_owned(), Json::Arr(arr)));
    proof {
        assert(out@.drop_last() =~= prev);
        assert(fields_view(out@) == fields_view(out@.drop_last()).push((
            out@.last().0@, json_view(out@.last().1))));
        assert(out@.last().0@ == name@);
        assert(json_view(out@.last().1) == JsonV::Arr(target));
        assert(target.len() == items@.len());
        assert(list_val(target) == Some(JsonV::Arr(target)));
        assert(fields_view(out@) =~~= fields_view(prev) + seg(name@, list_val(target)));
    }
}

fn put_volunteer_list(out: &mut Vec<(String, Json)>, name: &str, items: &Vec<Volunteer>)
    ensures
        fields_view(final(out)@) == fields_view(old(out)@) + seg(name@, list_val(
            items.deep_view().map_values(enc_volunteer_f()))),
{
    let ghost target = items.deep_view().map_values(enc_volunteer_f());
    if items.len() == 0 {
        proof {
            assert(target.len() == 0);
            assert(fields_view(out@) =~= fields_view(out@) + seg(name@, list_val(target)));
        }
        return;
    }
    let mut arr: Vec<Json> = Vec::new();
    proof {
        assert(elems_view(arr@) =~= target.take(0));
    }
    let n = items.len();
    for i in 0..n
        invariant
            n == items.len(),
            target == items.deep_view().map_values(enc_volunteer_f()),
            elems_view(arr@) == target.take(i as int),
    {
        let ghost prev = arr@;
        arr.push(enc_volunteer_node(&items[i]));
        proof {
            assert(arr@.drop_last() =~= prev);
            assert(items.deep_view()[i as int] == items@[i as int].deep_view());
            assert(elems_view(arr@) == elems_view(arr@.drop_last()).push(json_view(
                arr@.last())));
            assert(target[i as int] == enc_volunteer_f()(items.deep_view()[i as int]));
            assert(json_view(arr@.last()) == target[i as int]);
            lemma_take_succ(target, i as int);
            assert(elems_view(arr@) == target.take(i + 1));
        }
    }
    proof {
        assert(target.take(n as int) =~= target);
    }
    let ghost prev = out@;
    out.push((name.to_owned(), Json::Arr(arr)));
    proof {
        assert(out@.drop_last() =~= prev);
        assert(fields_view(out@) == fields_view(out@.drop_last()).push((
            out@.last().0@, json_view(out@.last().1))));
        assert(out@.last().0@ == name@);
        assert(json_view(out@.last().1) == JsonV::Arr(target));
        assert(target.len() == items@.len());
        assert(list_val(target) == Some(JsonV::Arr(target)));
        assert(fields_view(out@) =~~= fields_view(prev) + seg(name@, list_val(target)));
    }
}

fn put_education_list(out: &mut Vec<(String, Json)>, name: &str, items: &Vec<Education>)
    ensures
        fields_view(final(out)@) == fields_view(old(out)@) + seg(name@, list_val(
            items.deep_view().map_values(enc_education_f()))),
{
    let ghost target = items.deep_view().map_values(enc_education_f());
    if items.len() == 0 {
        proof {
            assert(target.len() == 0);
            assert(fields_view(out@) =~= fields_view(out@) + seg(name@, list_val(target)));
        }
        return;
    }
    let mut arr: Vec<Json> = Vec::new();
    proof {
        assert(elems_view(arr@) =~= target.take(0));
    }
    let n = items.len();
    for i in 0..n
        invariant
            n == items.len(),
            target == items.deep_view().map_values(enc_education_f()),
            elems_view(arr@) == target.take(i as int),
    {
        let ghost prev = arr@;
        arr.push(enc_education_node(&items[i]));
        proof {
            assert(arr@.drop_last() =~= prev);
            assert(items.deep_view()[i as int] == items@[i as int].deep_view());
            assert(elems_view(arr@) == elems_view(arr@.drop_last()).push(json_view(
                arr@.last())));
            assert(target[i as int] == enc_education_f()(items.deep_view()[i as int]));
            assert(json_view(arr@.last()) == target[i as int]);
            lemma_take_succ(target, i as int);
            assert(elems_view(arr@) == target.take(i + 1));
        }
    }
    proof {
        assert(target.take(n as int) =~= target);
    }
    let ghost prev = out@;
    out.push((name.to_owned(), Json::Arr(arr)));
    proof {
        assert(out@.drop_last() =~= prev);
        assert(fields_view(out@) == fields_view(out@.drop_last()).push((
            out@.last().0@, json_view(out@.last().1))));
        assert(out@.last().0@ == name@);
        assert(json_view(out@.last().1) == JsonV::Arr(target));
        assert(target.len() == items@.len());
        assert(list_val(target) == Some(JsonV::Arr(target)));
        assert(fields_view(out@) =~~= fields_view(prev) + seg(name@, list_val(target)));
    }
}

fn put_award_list(out: &mut Vec<(String, Json)>, name: &str, items: &Vec<Award>)
    ensures
        fields_view(final(out)@) == fields_view(old(out)@) + seg(name@, list_val(
            items.deep_view().map_values(enc_award_f()))),
{
    let ghost target = items.deep_view().map_values(enc_award_f());
    if items.len() == 0 {
        proof {
            assert(target.len() == 0);
            assert(fields_view(out@) =~= fields_view(out@) + seg(name@, list_val(target)));
        }
        return;
    }
    let mut arr: Vec<Json> = Vec::new();
    proof {
        assert(elems_view(arr@) =~= target.take(0));
    }
    let n = items.len();
    for i in 0..n
        invariant
            n == items.len(),
            target == items.deep_view().map_values(enc_award_f()),
            elems_view(arr@) == target.take(i as int),
    {
        let ghost prev = arr@;
        arr.push(enc_award_node(&items[i]));
        proof {
            assert(arr@.drop_last() =~= prev);
            assert(items.deep_view()[i as int] == items@[i as int].deep_view());
            assert(elems_view(arr@) == elems_view(arr@.drop_last()).push(json_view(
                arr@.last())));
            assert(target[i as int] == enc_award_f()(items.deep_view()[i as int]));
            assert(json_view(arr@.last()) == target[i as int]);
            lemma_take_succ(target, i as int);
            assert(elems_view(arr@) == target.take(i + 1));
        }
    }
    proof {
        assert(target.take(n as int) =~= target);
    }
    let ghost prev = out@;
    out.push((name.to_owned(), Json::Arr(arr)));
    proof {
        assert(out@.drop_last() =~= prev);
        assert(fields_view(out@) == fields_view(out@.drop_last()).push((
            out@.last().0@, json_view(out@.last().1))));
        assert(out@.last().0@ == name@);
        assert(json_view(out@.last().1) == JsonV::Arr(target));
        assert(target.len() == items@.len());
        assert(list_val(target) == Some(JsonV::Arr(target)));
        assert(fields_view(out@) =~~= fields_view(prev) + seg(name@, list_val(target)));
    }
}

fn put_certificate_list(out: &mut Vec<(String, Json)>, name: &str, items: &Vec<Certificate>)
    ensures
        fields_view(final(out)@) == fields_view(old(out)@) + seg(name@, list_val(
            items.deep_view().map_values(enc_certificate_f()))),
{
    let ghost target = items.deep_view().map_values(enc_certificate_f());
    if items.len() == 0 {
        proof {
            assert(target.len() == 0);
            assert(fields_view(out@) =~= fields_view(out@) + seg(name@, list_val(target)));
        }
        return;
    }
    let mut arr: Vec<Json> = Vec::new();
    proof {
        assert(elems_view(arr@) =~= target.take(0));
    }
    let n = items.len();
    for i in 0..n
        invariant
            n == items.len(),
            target == items.deep_view().map_values(enc_certificate_f()),
            elems_view(arr@) == target.take(i as int),
    {
        let ghost prev = arr@;
        arr.push(enc_certificate_node(&items[i]));
        proof {
            assert(arr@.drop_last() =~= prev);
            assert(items.deep_view()[i as int] == items@[i as int].deep_view());
            assert(elems_view(arr@) == elems_view(arr@.drop_last()).push(json_view(
                arr@.last())));
            assert(target[i as int] == enc_certificate_f()(items.deep_view()[i as int]));
            assert(json_view(arr@.last()) == target[i as int]);
            lemma_take_succ(target, i as int);
            assert(elems_view(arr@) == target.take(i + 1));
        }
    }
    proof {
        assert(target.take(n as int) =~= target);
    }
    let ghost prev = out@;
    out.push((name.to_owned(), Json::Arr(arr)));
    proof {
        assert(out@.drop_last() =~= prev);
        assert(fields_view(out@) == fields_view(out@.drop_last()).push((
            out@.last().0@, json_view(out@.last().1))));
        assert(out@.last().0@ == name@);
        assert(json_view(out@.last().1) == JsonV::Arr(target));
        assert(target.len() == items@.len());
        assert(list_val(target) == Some(JsonV::Arr(target)));
        assert(fields_view(out@) =~~= fields_view(prev) + seg(name@, list_val(target)));
    }
}

fn put_publication_list(out: &mut Vec<(String, Json)>, name: &str, items: &Vec<Publication>)
    ensures
        fields_view(final(out)@) == fields_view(old(out)@) + seg(name@, list_val(
            items.deep_view().map_values(enc_publication_f()))),
{
    let ghost target = items.deep_view().map_values(enc_publication_f());
    if items.len() == 0 {
        proof {
            assert(target.len() == 0);
            assert(fields_view(out@) =~= fields_view(out@) + seg(name@, list_val(target)));
        }
        return;
    }
    let mut arr: Vec<Json> = Vec::new();
    proof {
        assert(elems_view(arr@) =~= target.take(0));
    }
    let n = items.len();
    for i in 0..n
        invariant
            n == items.len(),
            target == items.deep_view().map_values(enc_publication_f()),
            elems_view(arr@) == target.take(i as int),
    {
        let ghost prev = arr@;
        arr.push(enc_publication_node(&items[i]));
        proof {
            assert(arr@.drop_last() =~= prev);
            assert(items.deep_view()[i as int] == items@[i as int].deep_view());
            assert(elems_view(arr@) == elems_view(arr@.drop_last()).push(json_view(
                arr@.last())));
            assert(target[i as int] == enc_publication_f()(items.deep_view()[i as int]));
            assert(json_view(arr@.last()) == target[i as int]);
            lemma_take_succ(target, i as int);
            assert(elems_view(arr@) == target.take(i + 1));
        }
    }
    proof {
        assert(target.take(n as int) =~= target);
    }
    let ghost prev = out@;
    out.push((name.to_owned(), Json::Arr(arr)));
    proof {
        assert(out@.drop_last() =~= prev);
        assert(fields_view(out@) == fields_view(out@.drop_last()).push((
            out@.last().0@, json_view(out@.last().1))));
        assert(out@.last().0@ == name@);
        assert(json_view(out@.last().1) == JsonV::Arr(target));
        assert(target.len() == items@.len());
        assert(list_val(target) == Some(JsonV::Arr(target)));
        assert(fields_view(out@) =~~= fields_view(prev) + seg(name@, list_val(target)));
    }
}

fn put_skill_list(out: &mut Vec<(String, Json)>, name: &str, items: &Vec<Skill>)
    ensures
        fields_view(final(out)@) == fields_view(old(out)@) + seg(name@, list_val(
            items.deep_view().map_values(enc_skill_f()))),
{
    let ghost target = items.deep_view().map_values(enc_skill_f());
    if items.len() == 0 {
        proof {
            assert(target.len() == 0);
            assert(fields_view(out@) =~= fields_view(out@) + seg(name@, list_val(target)));
        }
        return;
    }
    let mut arr: Vec<Json> = Vec::new();
    proof {
        assert(elems_view(arr@) =~= target.take(0));
    }
    let n = items.len();
    for i in 0..n
        invariant
            n == items.len(),
            target == items.deep_view().map_values(enc_skill_f()),
            elems_view(arr@) == target.take(i as int),
    {
        let ghost prev = arr@;
        arr.push(enc_skill_node(&items[i]));
        proof {
            assert(arr@.drop_last() =~= prev);
            assert(items.deep_view()[i as int] == items@[i as int].deep_view());
            assert(elems_view(arr@) == elems_view(arr@.drop_last()).push(json_view(
                arr@.last())));
            assert(target[i as int] == enc_skill_f()(items.deep_view()[i as int]));
            assert(json_view(arr@.last()) == target[i as int]);
            lemma_take_succ(target, i as int);
            assert(elems_view(arr@) == target.take(i + 1));
        }
    }
    proof {
        assert(target.take(n as int) =~= target);
    }
    let ghost prev = out@;
    out.push((name.to_owned(), Json::Arr(arr)));
    proof {
        assert(out@.drop_last() =~= prev);
        assert(fields_view(out@) == fields_view(out@.drop_last()).push((
            out@.last().0@, json_view(out@.last().1))));
        assert(out@.last().0@ == name@);
        assert(json_view(out@.last().1) == JsonV::Arr(target));
        assert(target.len() == items@.len());
        assert(list_val(target) == Some(JsonV::Arr(target)));
        assert(fields_view(out@) =~~= fields_view(prev) + seg(name@, list_val(target)));
    }
}

fn put_language_list(out: &mut Vec<(String, Json)>, name: &str, items: &Vec<Language>)
    ensures
        fields_view(final(out)@) == fields_view(old(out)@) + seg(name@, list_val(
            items.deep_view().map_values(enc_language_f()))),
{
    let ghost target = items.deep_view().map_values(enc_language_f());
    if items.len() == 0 {
        proof {
            assert(target.len() == 0);
            assert(fields_view(out@) =~= fields_view(out@) + seg(name@, list_val(target)));
        }
        return;
    }
    let mut arr: Vec<Json> = Vec::new();
    proof {
        assert(elems_view(arr@) =~= target.take(0));
    }
    let n = items.len();
    for i in 0..n
        invariant
            n == items.len(),
            target == items.deep_view().map_values(enc_language_f()),
            elems_view(arr@) == target.take(i as int),
    {
        let ghost prev = arr@;
        arr.push(enc_language_node(&items[i]));
        proof {
            assert(arr@.drop_last() =~= prev);
            assert(items.deep_view()[i as int] == items@[i as int].deep_view());
            assert(elems_view(arr@) == elems_view(arr@.drop_last()).push(json_view(
                arr@.last())));
            assert(target[i as int] == enc_language_f()(items.deep_view()[i as int]));
            assert(json_view(arr@.last()) == target[i as int]);
            lemma_take_succ(target, i as int);
            assert(elems_view(arr@) == target.take(i + 1));
        }
    }
    proof {
        assert(target.take(n as int) =~= target);
    }
    let ghost prev = out@;
    out.push((name.to_owned(), Json::Arr(arr)));
    proof {
        assert(out@.drop_last() =~= prev);
        assert(fields_view(out@) == fields_view(out@.drop_last()).push((
            out@.last().0@, json_view(out@.last().1))));
        assert(out@.last().0@ == name@);
        assert(json_view(out@.last().1) == JsonV::Arr(target));
        assert(target.len() == items@.len());
        assert(list_val(target) == Some(JsonV::Arr(target)));
        assert(fields_view(out@) =~~= fields_view(prev) + seg(name@, list_val(target)));
    }
}

fn put_interest_list(out: &mut Vec<(String, Json)>, name: &str, items: &Vec<Interest>)
    ensures
        fields_view(final(out)@) == fields_view(old(out)@) + seg(name@, list_val(
            items.deep_view().map_values(enc_interest_f()))),
{
    let ghost target = items.deep_view().map_values(enc_interest_f());
    if items.len() == 0 {
        proof {
            assert(target.len() == 0);
            assert(fields_view(out@) =~= fields_view(out@) + seg(name@, list_val(target)));
        }
        return;
    }
    let mut arr: Vec<Json> = Vec::new();
    proof {
        assert(elems_view(arr@) =~= target.take(0));
    }
    let n = items.len();
    for i in 0..n
        invariant
            n == items.len(),
            target == items.deep_view().map_values(enc_interest_f()),
            elems_view(arr@) == target.take(i as int),
    {
        let ghost prev = arr@;
        arr.push(enc_interest_node(&items[i]));
        proof {
            assert(arr@.drop_last() =~= prev);
            assert(items.deep_view()[i as int] == items@[i as int].deep_view());
            assert(elems_view(arr@) == elems_view(arr@.drop_last()).push(json_view(
                arr@.last())));
            assert(target[i as int] == enc_interest_f()(items.deep_view()[i as int]));
            assert(json_view(arr@.last()) == target[i as int]);
            lemma_take_succ(target, i as int);
            assert(elems_view(arr@) == target.take(i + 1));
        }
    }
    proof {
        assert(target.take(n as int) =~= target);
    }
    let ghost prev = out@;
    out.push((name.to_owned(), Json::Arr(arr)));
    proof {
        assert(out@.drop_last() =~= prev);
        assert(fields_view(out@) == fields_view(out@.drop_last()).push((
            out@.last().0@, json_view(out@.last().1))));
        assert(out@.last().0@ == name@);
        assert(json_view(out@.last().1) == JsonV::Arr(target));
        assert(target.len() == items@.len());
        assert(list_val(target) == Some(JsonV::Arr(target)));
        assert(fields_view(out@) =~~= fields_view(prev) + seg(name@, list_val(target)));
    }
}

fn put_reference_list(out: &mut Vec<(String, Json)>, name: &str, items: &Vec<Reference>)
    ensures
        fields_view(final(out)@) == fields_view(old(out)@) + seg(name@, list_val(
            items.deep_view().map_values(enc_reference_f()))),
{
    let ghost target = items.deep_view().map_values(enc_reference_f());
    if items.len() == 0 {
        proof {
            assert(target.len() == 0);
            assert(fields_view(out@) =~= fields_view(out@) + seg(name@, list_val(target)));
        }
        return;
    }
    let mut arr: Vec<Json> = Vec::new();
    proof {
        assert(elems_view(arr@) =~= target.take(0));
    }
    let n = items.len();
    for i in 0..n
        invariant
            n == items.len(),
            target == items.deep_view().map_values(enc_reference_f()),
            elems_view(arr@) == target.take(i as int),
    {
        let ghost prev = arr@;
        arr.push(enc_reference_node(&items[i]));
        proof {
            assert(arr@.drop_last() =~= prev);
            assert(items.deep_view()[i as int] == items@[i as int].deep_view());
            assert(elems_view(arr@) == elems_view(arr@.drop_last()).push(json_view(
                arr@.last())));
            assert(target[i as int] == enc_reference_f()(items.deep_view()[i as int]));
            assert(json_view(arr@.last()) == target[i as int]);
            lemma_take_succ(target, i as int);
            assert(elems_view(arr@) == target.take(i + 1));
        }
    }
    proof {
        assert(target.take(n as int) =~= target);
    }
    let ghost prev = out@;
    out.push((name.to_owned(), Json::Arr(arr)));
    proof {
        assert(out@.drop_last() =~= prev);
        assert(fields_view(out@) == fields_view(out@.drop_last()).push((
            out@.last().0@, json_view(out@.last().1))));
        assert(out@.last().0@ == name@);
        assert(json_view(out@.last().1) == JsonV::Arr(target));
        assert(target.len() == items@.len());
        assert(list_val(target) == Some(JsonV::Arr(target)));
        assert(fields_view(out@) =~~= fields_view(prev) + seg(name@, list_val(target)));
    }
}

fn put_project_list(out: &mut Vec<(String, Json)>, name: &str, items: &Vec<Project>)
    ensures
        fields_view(final(out)@) == fields_view(old(out)@) + seg(name@, list_val(
            items.deep_view().map_values(enc_project_f()))),
{
    let ghost target = items.deep_view().map_values(enc_project_f());
    if items.len() == 0 {
        proof {
            assert(target.len() == 0);
            assert(fields_view(out@) =~= fields_view(out@) + seg(name@, list_val(target)));
        }
        return;
    }
    let mut arr: Vec<Json> = Vec::new();
    proof {
        assert(elems_view(arr@) =~= target.take(0));
    }
    let n = items.len();
    for i in 0..n
        invariant
            n == items.len(),
            target == items.deep_view().map_values(enc_project_f()),
            elems_view(arr@) == target.take(i as int),
    {
        let ghost prev = arr@;
        arr.push(enc_project_node(&items[i]));
        proof {
            assert(arr@.drop_last() =~= prev);
            assert(items.deep_view()[i as int] == items@[i as int].deep_view());
            assert(elems_view(arr@) == elems_view(arr@.drop_last()).push(json_view(
                arr@.last())));
            assert(target[i as int] == enc_project_f()(items.deep_view()[i as int]));
            assert(json_view(arr@.last()) == target[i as int]);
            lemma_take_succ(target, i as int);
            assert(elems_view(arr@) == target.take(i + 1));
        }
    }
    proof {
        assert(target.take(n as int) =~= target);
    }
    let ghost prev = out@;
    out.push((name.to_owned(), Json::Arr(arr)));
    proof {
        assert(out@.drop_last() =~= prev);
        assert(fields_view(out@) == fields_view(out@.drop_last()).push((
            out@.last().0@, json_view(out@.last().1))));
        assert(out@.last().0@ == name@);
        assert(json_view(out@.last().1) == JsonV::Arr(target));
        assert(target.len() == items@.len());
        assert(list_val(target) == Some(JsonV::Arr(target)));
        assert(fields_view(out@) =~~= fields_view(prev) + seg(name@, list_val(target)));
    }
}

fn put_profile_list(out: &mut Vec<(String, Json)>, name: &str, items: &Vec<Profile>)
    ensures
        fields_view(final(out)@) == fields_view(old(out)@) + seg(name@, list_val(
            items.deep_view().map_values(enc_profile_f()))),
{
    let ghost target = items.deep_view().map_values(enc_profile_f());
    if items.len() == 0 {
        proof {
            assert(target.len() == 0);
            assert(fields_view(out@) =~= fields_view(out@) + seg(name@, list_val(target)));
        }
        return;
    }
    let mut arr: Vec<Json> = Vec::new();
    proof {
        assert(elems_view(arr@) =~= target.take(0));
    }
    let n = items.len();
    for i in 0..n
        invariant
            n == items.len(),
            target == items.deep_view().map_values(enc_profile_f()),
            elems_view(arr@) == target.take(i as int),
    {
        let ghost prev = arr@;
        arr.push(enc_profile_node(&items[i]));
        proof {
            assert(arr@.drop_last() =~= prev);
            assert(items.deep_view()[i as int] == items@[i as int].deep_view());
            assert(elems_view(arr@) == elems_view(arr@.drop_last()).push(json_view(
                arr@.last())));
            assert(target[i as int] == enc_profile_f()(items.deep_view()[i as int]));
            assert(json_view(arr@.last()) == target[i as int]);
            lemma_take_succ(target, i as int);
            assert(elems_view(arr@) == target.take(i + 1));
        }
    }
    proof {
        assert(target.take(n as int) =~= target);
    }
    let ghost prev = out@;
    out.push((name.to_owned(), Json::Arr(arr)));
    proof {
        assert(out@.drop_last() =~= prev);
        assert(fields_view(out@) == fields_view(out@.drop_last()).push((
            out@.last().0@, json_view(out@.last().1))));
        assert(out@.last().0@ == name@);
        assert(json_view(out@.last().1) == JsonV::Arr(target));
        assert(target.len() == items@.len());
        assert(list_val(target) == Some(JsonV::Arr(target)));
        assert(fields_view(out@) =~~= fields_view(prev) + seg(name@, list_val(target)));
    }
}

fn put_position_list(out: &mut Vec<(String, Json)>, name: &str, items: &Vec<Position>)
    ensures
        fields_view(final(out)@) == fields_view(old(out)@) + seg(name@, list_val(
            items.deep_view().map_values(enc_position_f()))),
{
    let ghost target = items.deep_view().map_values(enc_position_f());
    if items.len() == 0 {
        proof {
            assert(target.len() == 0);
            assert(fields_view(out@) =~= fields_view(out@) + seg(name@, list_val(target)));
        }
        return;
    }
    let mut arr: Vec<Json> = Vec::new();
    proof {
        assert(elems_view(arr@) =~= target.take(0));
    }
    let n = items.len();
    for i in 0..n
        invariant
            n == items.len(),
            target == items.deep_view().map_values(enc_position_f()),
            elems_view(arr@) == target.take(i as int),
    {
        let ghost prev = arr@;
        arr.push(enc_position_node(&items[i]));
        proof {
            assert(arr@.drop_last() =~= prev);
            assert(items.deep_view()[i as int] == items@[i as int].deep_view());
            assert(elems_view(arr@) == elems_view(arr@.drop_last()).push(json_view(
                arr@.last())));
            assert(target[i as int] == enc_position_f()(items.deep_view()[i as int]));
            assert(json_view(arr@.last()) == target[i as int]);
            lemma_take_succ(target, i as int);
            assert(elems_view(arr@) == target.take(i + 1));
        }
    }
    proof {
        assert(target.take(n as int) =~= target);
    }
    let ghost prev = out@;
    out.push((name.to_owned(), Json::Arr(arr)));
    proof {
        assert(out@.drop_last() =~= prev);
        assert(fields_view(out@) == fields_view(out@.drop_last()).push((
            out@.last().0@, json_view(out@.last().1))));
        assert(out@.last().0@ == name@);
        assert(json_view(out@.last().1) == JsonV::Arr(target));
        assert(target.len() == items@.len());
        assert(list_val(target) == Some(JsonV::Arr(target)));
        assert(fields_view(out@) =~~= fields_view(prev) + seg(name@, list_val(target)));
    }
}

fn put_feature_list(out: &mut Vec<(String, Json)>, name: &str, items: &Vec<Feature>)
    ensures
        fields_view(final(out)@) == fields_view(old(out)@) + seg(name@, list_val(
            items.deep_view().map_values(enc_feature_f()))),
{
    let ghost target = items.deep_view().map_values(enc_feature_f());
    if items.len() == 0 {
        proof {
            assert(target.len() == 0);
            assert(fields_view(out@) =~= fields_view(out@) + seg(name@, list_val(target)));
        }
        return;
    }
    let mut arr: Vec<Json> = Vec::new();
    proof {
        assert(elems_view(arr@) =~= target.take(0));
    }
    let n = items.len();
    for i in 0..n
        invariant
            n == items.len(),
            target == items.deep_view().map_values(enc_feature_f()),
            elems_view(arr@) == target.take(i as int),
    {
        let ghost prev = arr@;
        arr.push(enc_feature_node(&items[i]));
        proof {
            assert(arr@.drop_last() =~= prev);
            assert(items.deep_view()[i as int] == items@[i as int].deep_view());
            assert(elems_view(arr@) == elems_view(arr@.drop_last()).push(json_view(
                arr@.last())));
            assert(target[i as int] == enc_feature_f()(items.deep_view()[i as int]));
            assert(json_view(arr@.last()) == target[i as int]);
            lemma_take_succ(target, i as int);
            assert(elems_view(arr@) == target.take(i + 1));
        }
    }
    proof {
        assert(target.take(n as int) =~= target);
    }
    let ghost prev = out@;
    out.push((name.to_owned(), Json::Arr(arr)));
    proof {
        assert(out@.drop_last() =~= prev);
        assert(fields_view(out@) == fields_view(out@.drop_last()).push((
            out@.last().0@, json_view(out@.last().1))));
        assert(out@.last().0@ == name@);
        assert(json_view(out@.last().1) == JsonV::Arr(target));
        assert(target.len() == items@.len());
        assert(list_val(target) == Some(JsonV::Arr(target)));
        assert(fields_view(out@) =~~= fields_view(prev) + seg(name@, list_val(target)));
    }
}

fn put_opt_basics(out: &mut Vec<(String, Json)>, name: &str, v: &Option<Basics>)
    ensures
        fields_view(final(out)@) == fields_view(old(out)@) + seg(name@, (
            match v.deep_view() {
                Option::Some(x) => Some(enc_basics(x)),
                Option::None => None,
            }
        )),
{
    match v {
        Some(b) => {
            let j = enc_basics_node(b);
            let ghost prev = out@;
            out.push((name.to_owned(), j));
            proof {
                assert(out@.drop_last() =~= prev);
                assert(fields_view(out@) == fields_view(out@.drop_last()).push((
                    out@.last().0@, json_view(out@.last().1))));
                assert(out@.last().0@ == name@);
                assert(json_view(out@.last().1) == enc_basics(b.deep_view()));
                assert(v.deep_view() == Some(b.deep_view()));
                assert(fields_view(out@) =~~= fields_view(prev) + seg(name@, Some(
                    enc_basics(b.deep_view()))));
            }
        },
        None => {
            proof {
                assert(fields_view(out@) =~= fields_view(out@)
                    + Seq::<(Seq<char>, JsonV)>::empty());
            }
        },
    }
}

fn put_opt_meta(out: &mut Vec<(String, Json)>, name: &str, v: &Option<Meta>)
    ensures
        fields_view(final(out)@) == fields_view(old(out)@) + seg(name@, (
            match v.deep_view() {
                Option::Some(x) => Some(enc_meta(x)),
                Option::None => None,
            }
        )),
{
    match v {
        Some(b) => {
            let j = enc_meta_node(b);
            let ghost prev = out@;
            out.push((name.to_owned(), j));
            proof {
                assert(out@.drop_last() =~= prev);
                assert(fields_view(out@) == fields_view(out@.drop_last()).push((
                    out@.last().0@, json_view(out@.last().1))));
                assert(out@.last().0@ == name@);
                assert(json_view(out@.last().1) == enc_meta(b.deep_view()));
                assert(v.deep_view() == Some(b.deep_view()));
                assert(fields_view(out@) =~~= fields_view(prev) + seg(name@, Some(
                    enc_meta(b.deep_view()))));
            }
        },
        None => {
            proof {
                assert(fields_view(out@) =~= fields_view(out@)
                    + Seq::<(Seq<char>, JsonV)>::empty());
            }
        },
    }
}

fn put_location(out: &mut Vec<(String, Json)>, name: &str, v: &Location)
    ensures
        fields_view(final(out)@) == fields_view(old(out)@) + seg(name@, Some(
            enc_location(v.deep_view()))),
{
    let j = enc_location_node(v);
    let ghost prev = out@;
    out.push((name.to_owned(), j));
    proof {
        assert(out@.drop_last() =~= prev);
        assert(fields_view(out@) == fields_view(out@.drop_last()).push((
            out@.last().0@, json_view(out@.last().1))));
        assert(out@.last().0@ == name@);
        assert(json_view(out@.last().1) == enc_location(v.deep_view()));
        assert(fields_view(out@) =~~= fields_view(prev) + seg(name@, Some(enc_location(
            v.deep_view()))));
    }
}

/// Encode one [`Resume`] as a wire object.
pub fn enc_resume_node(v: &Resume) -> (j: Json)
    ensures
        j.deep_view() == enc_resume(v.deep_view()),
{
    let mut out: Vec<(String, Json)> = Vec::new();
    proof {
        assert(fields_view(out@) =~= Seq::<(Seq<char>, JsonV)>::empty());
    }
    put_opt_basics(&mut out, "basics", &v.basics);
    put_work_list(&mut out, "work", &v.work);
    put_volunteer_list(&mut out, "volunteer", &v.volunteer);
    put_education_list(&mut out, "education", &v.education);
    put_award_list(&mut out, "awards", &v.awards);
    put_certificate_list(&mut out, "certificates", &v.certificates);
    put_publication_list(&mut out, "publications", &v.publications);
    put_skill_list(&mut out, "skills", &v.skills);
    put_language_list(&mut out, "languages", &v.languages);
    put_interest_list(&mut out, "interests", &v.interests);
    put_reference_list(&mut out, "references", &v.references);
    put_project_list(&mut out, "projects", &v.projects);
    put_project_list(&mut out, "sideProjects", &v.side_projects);
    put_opt_meta(&mut out, "meta", &v.meta);
    proof {
        assert(fields_view(out@) =~~= enc_resume_fields(v.deep_view()));
    }
    Json::Obj(out)
}

/// Encode one [`Basics`] as a wire object.
pub fn enc_basics_node(v: &Basics) -> (j: Json)
    ensures
        j.deep_view() == enc_basics(v.deep_view()),
{
    let mut out: Vec<(String, Json)> = Vec::new();
    proof {
        assert(fields_view(out@) =~= Seq::<(Seq<char>, JsonV)>::empty());
    }
    put_opt_str(&mut out, "name", &v.name);
    put_opt_str(&mut out, "label", &v.label);
    put_opt_str(&mut out, "image", &v.image);
    put_opt_str(&mut out, "email", &v.email);
    put_opt_str(&mut out, "phone", &v.phone);
    put_opt_str(&mut out, "url", &v.url);
    put_opt_str(&mut out, "summary", &v.summary);
    put_location(&mut out, "location", &v.location);
    put_profile_list(&mut out, "profiles", &v.profiles);
    proof {
        assert(fields_view(out@) =~~= enc_basics_fields(v.deep_view()));
    }
    Json::Obj(out)
}

/// Encode one [`Location`] as a wire object.
pub fn enc_location_node(v: &Location) -> (j: Json)
    ensures
        j.deep_view() == enc_location(v.deep_view()),
{
    let mut out: Vec<(String, Json)> = Vec::new();
    proof {
        assert(fields_view(out@) =~= Seq::<(Seq<char>, JsonV)>::empty());
    }
    put_opt_str(&mut out, "address", &v.address);
    put_opt_str(&mut out, "postalCode", &v.postal_code);
    put_opt_str(&mut out, "city", &v.city);
    put_opt_str(&mut out, "countryCode", &v.country_code);
    put_opt_str(&mut out, "region", &v.region);
    proof {
        assert(fields_view(out@) =~~= enc_location_fields(v.deep_view()));
    }
    Json::Obj(out)
}

/// Encode one [`Profile`] as a wire object.
pub fn enc_profile_node(v: &Profile) -> (j: Json)
    ensures
        j.deep_view() == enc_profile(v.deep_view()),
{
    let mut out: Vec<(String, Json)> = Vec::new();
    proof {
        assert(fields_view(out@) =~= Seq::<(Seq<char>, JsonV)>::empty());
    }
    put_opt_str(&mut out, "network", &v.network);
    put_opt_str(&mut out, "username", &v.username);
    put_opt_str(&mut out, "url", &v.url);
    proof {
        assert(fields_view(out@) =~~= enc_profile_fields(v.deep_view()));
    }
    Json::Obj(out)
}

/// Encode one [`Work`] as a wire object.
pub fn enc_work_node(v: &Work) -> (j: Json)
    ensures
        j.deep_view() == enc_work(v.deep_view()),
{
    let mut out: Vec<(String, Json)> = Vec::new();
    proof {
        assert(fields_view(out@) =~= Seq::<(Seq<char>, JsonV)>::empty());
    }
    put_opt_str(&mut out, "name", &v.name);
    put_opt_str(&mut out, "location", &v.location);
    put_opt_str(&mut out, "description", &v.description);
    put_position_list(&mut out, "positions", &v.positions);
    put_opt_str(&mut out, "position", &v.position);
    put_opt_str(&mut out, "url", &v.url);
    put_opt_str(&mut out, "startDate", &v.start_date);
    put_opt_str(&mut out, "endDate", &v.end_date);
    put_highlight_list(&mut out, "highlights", &v.highlights);
    proof {
        assert(fields_view(out@) =~~= enc_work_fields(v.deep_view()));
    }
    Json::Obj(out)
}

/// Encode one [`Position`] as a wire object.
pub fn enc_position_node(v: &Position) -> (j: Json)
    ensures
        j.deep_view() == enc_position(v.deep_view()),
{
    let mut out: Vec<(String, Json)> = Vec::new();
    proof {
        assert(fields_view(out@) =~= Seq::<(Seq<char>, JsonV)>::empty());
    }
    put_req_str(&mut out, "title", &v.title);
    put_opt_str(&mut out, "startDate", &v.start_date);
    put_opt_str(&mut out, "endDate", &v.end_date);
    proof {
        assert(fields_view(out@) =~~= enc_position_fields(v.deep_view()));
    }
    Json::Obj(out)
}

/// Encode one [`Volunteer`] as a wire object.
pub fn enc_volunteer_node(v: &Volunteer) -> (j: Json)
    ensures
        j.deep_view() == enc_volunteer(v.deep_view()),
{
    let mut out: Vec<(String, Json)> = Vec::new();
    proof {
        assert(fields_view(out@) =~= Seq::<(Seq<char>, JsonV)>::empty());
    }
    put_opt_str(&mut out, "organization", &v.organization);
    put_opt_str(&mut out, "position", &v.position);
    put_opt_str(&mut out, "url", &v.url);
    put_opt_str(&mut out, "startDate", &v.start_date);
    put_opt_str(&mut out, "endDate", &v.end_date);
    put_opt_str(&mut out, "summary", &v.summary);
    put_highlight_list(&mut out, "highlights", &v.highlights);
    proof {
        assert(fields_view(out@) =~~= enc_volunteer_fields(v.deep_view()));
    }
    Json::Obj(out)
}

/// Encode one [`Education`] as a wire object.
pub fn enc_education_node(v: &Education) -> (j: Json)
    ensures
        j.deep_view() == enc_education(v.deep_view()),
{
    let mut out: Vec<(String, Json)> = Vec::new();
    proof {
        assert(fields_view(out@) =~= Seq::<(Seq<char>, JsonV)>::empty());
    }
    put_opt_str(&mut out, "institution", &v.institution);
    put_opt_str(&mut out, "url", &v.url);
    put_str_list(&mut out, "degrees", &v.degrees);
    put_opt_str(&mut out, "area", &v.area);
    put_opt_str(&mut out, "studyType", &v.study_type);
    put_opt_str(&mut out, "startDate", &v.start_date);
    put_opt_str(&mut out, "endDate", &v.end_date);
    put_opt_str(&mut out, "score", &v.score);
    put_course_list(&mut out, "courses", &v.courses);
    proof {
        assert(fields_view(out@) =~~= enc_education_fields(v.deep_view()));
    }
    Json::Obj(out)
}

/// Encode one [`Award`] as a wire object.
pub fn enc_award_node(v: &Award) -> (j: Json)
    ensures
        j.deep_view() == enc_award(v.deep_view()),
{
    let mut out: Vec<(String, Json)> = Vec::new();
    proof {
        assert(fields_view(out@) =~= Seq::<(Seq<char>, JsonV)>::empty());
    }
    put_opt_str(&mut out, "title", &v.title);
    put_opt_str(&mut out, "date", &v.date);
    put_opt_str(&mut out, "awarder", &v.awarder);
    put_opt_str(&mut out, "summary", &v.summary);
    proof {
        assert(fields_view(out@) =~~= enc_award_fields(v.deep_view()));
    }
    Json::Obj(out)
}

/// Encode one [`Certificate`] as a wire object.
pub fn enc_certificate_node(v: &Certificate) -> (j: Json)
    ensures
        j.deep_view() == enc_certificate(v.deep_view()),
{
    let mut out: Vec<(String, Json)> = Vec::new();
    proof {
        assert(fields_view(out@) =~= Seq::<(Seq<char>, JsonV)>::empty());
    }
    put_opt_str(&mut out, "name", &v.name);
    put_opt_str(&mut out, "date", &v.date);
    put_opt_str(&mut out, "url", &v.url);
    put_opt_str(&mut out, "issuer", &v.issuer);
    proof {
        assert(fields_view(out@) =~~= enc_certificate_fields(v.deep_view()));
    }
    Json::Obj(out)
}

/// Encode one [`Publication`] as a wire object.
pub fn enc_publication_node(v: &Publication) -> (j: Json)
    ensures
        j.deep_view() == enc_publication(v.deep_view()),
{
    let mut out: Vec<(String, Json)> = Vec::new();
    proof {
        assert(fields_view(out@) =~= Seq::<(Seq<char>, JsonV)>::empty());
    }
    put_opt_str(&mut out, "name", &v.name);
    put_opt_str(&mut out, "publisher", &v.publisher);
    put_opt_str(&mut out, "releaseDate", &v.release_date);
    put_opt_str(&mut out, "url", &v.url);
    put_opt_str(&mut out, "summary", &v.summary);
    proof {
        assert(fields_view(out@) =~~= enc_publication_fields(v.deep_view()));
    }
    Json::Obj(out)
}

/// Encode one [`Skill`] as a wire object.
pub fn enc_skill_node(v: &Skill) -> (j: Json)
    ensures
        j.deep_view() == enc_skill(v.deep_view()),
{
    let mut out: Vec<(String, Json)> = Vec::new();
    proof {
        assert(fields_view(out@) =~= Seq::<(Seq<char>, JsonV)>::empty());
    }
    put_opt_str(&mut out, "name", &v.name);
    put_opt_str(&mut out, "level", &v.level);
    put_keyword_list(&mut out, "keywords", &v.keywords);
    proof {
        assert(fields_view(out@) =~~= enc_skill_fields(v.deep_view()));
    }
    Json::Obj(out)
}

/// Encode one [`Language`] as a wire object.
pub fn enc_language_node(v: &Language) -> (j: Json)
    ensures
        j.deep_view() == enc_language(v.deep_view()),
{
    let mut out: Vec<(String, Json)> = Vec::new();
    proof {
        assert(fields_view(out@) =~= Seq::<(Seq<char>, JsonV)>::empty());
    }
    put_opt_str(&mut out, "language", &v.language);
    put_opt_str(&mut out, "fluency", &v.fluency);
    proof {
        assert(fields_view(out@) =~~= enc_language_fields(v.deep_view()));
    }
    Json::Obj(out)
}

/// Encode one [`Interest`] as a wire object.
pub fn enc_interest_node(v: &Interest) -> (j: Json)
    ensures
        j.deep_view() == enc_interest(v.deep_view()),
{
    let mut out: Vec<(String, Json)> = Vec::new();
    proof {
        assert(fields_view(out@) =~= Seq::<(Seq<char>, JsonV)>::empty());
    }
    put_opt_str(&mut out, "name", &v.name);
    put_keyword_list(&mut out, "keywords", &v.keywords);
    proof {
        assert(fields_view(out@) =~~= enc_interest_fields(v.deep_view()));
    }
    Json::Obj(out)
}

/// Encode one [`Reference`] as a wire object.
pub fn enc_reference_node(v: &Reference) -> (j: Json)
    ensures
        j.deep_view() == enc_reference(v.deep_view()),
{
    let mut out: Vec<(String, Json)> = Vec::new();
    proof {
        assert(fields_view(out@) =~= Seq::<(Seq<char>, JsonV)>::empty());
    }
    put_opt_str(&mut out, "name", &v.name);
    put_opt_str(&mut out, "reference", &v.reference);
    proof {
        assert(fields_view(out@) =~~= enc_reference_fields(v.deep_view()));
    }
    Json::Obj(out)
}

/// Encode one [`Project`] as a wire object.
pub fn enc_project_node(v: &Project) -> (j: Json)
    ensures
        j.deep_view() == enc_project(v.deep_view()),
{
    let mut out: Vec<(String, Json)> = Vec::new();
    proof {
        assert(fields_view(out@) =~= Seq::<(Seq<char>, JsonV)>::empty());
    }
    put_opt_str(&mut out, "name", &v.name);
    put_opt_str(&mut out, "description", &v.description);
    put_highlight_list(&mut out, "highlights", &v.highlights);
    put_duty_list(&mut out, "duties", &v.duties);
    put_profit_list(&mut out, "profits", &v.profits);
    put_feature_list(&mut out, "features", &v.features);
    put_keyword_list(&mut out, "keywords", &v.keywords);
    put_opt_str(&mut out, "startDate", &v.start_date);
    put_opt_str(&mut out, "endDate", &v.end_date);
    put_opt_str(&mut out, "url", &v.url);
    put_role_list(&mut out, "roles", &v.roles);
    put_opt_str(&mut out, "entity", &v.entity);
    put_opt_str(&mut out, "type", &v.type_);
    proof {
        assert(fields_view(out@) =~~= enc_project_fields(v.deep_view()));
    }
    Json::Obj(out)
}

/// Encode one [`Feature`] as a wire object.
pub fn enc_feature_node(v: &Feature) -> (j: Json)
    ensures
        j.deep_view() == enc_feature(v.deep_view()),
{
    let mut out: Vec<(String, Json)> = Vec::new();
    proof {
        assert(fields_view(out@) =~= Seq::<(Seq<char>, JsonV)>::empty());
    }
    put_req_str(&mut out, "name", &v.name);
    put_req_str(&mut out, "situation", &v.situation);
    put_req_str(&mut out, "task", &v.task);
    put_req_str(&mut out, "action", &v.action);
    put_req_str(&mut out, "result", &v.result);
    proof {
        assert(fields_view(out@) =~~= enc_feature_fields(v.deep_view()));
    }
    Json::Obj(out)
}

/// Encode one [`Meta`] as a wire object.
pub fn enc_meta_node(v: &Meta) -> (j: Json)
    ensures
        j.deep_view() == enc_meta(v.deep_view()),
{
    let mut out: Vec<(String, Json)> = Vec::new();
    proof {
        assert(fields_view(out@) =~= Seq::<(Seq<char>, JsonV)>::empty());
    }
    put_opt_str(&mut out, "canonical", &v.canonical);
    put_opt_str(&mut out, "version", &v.version);
    put_opt_str(&mut out, "lastModified", &v.last_modified);
    proof {
        assert(fields_view(out@) =~~= enc_meta_fields(v.deep_view()));
    }
    Json::Obj(out)
}

/// Encode a tree as a wire value: the root object of the document.
pub fn encode(r: &Resume) -> (j: Json)
    ensures
        j.deep_view() == enc_resume(r.deep_view()),
{
    enc_resume_node(r)
}

} // verus!
