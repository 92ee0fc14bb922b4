//! The codec's laws, proved once and for all: a tree survives the round
//! trip through the wire format; an all-default tree encodes to an empty
//! object; a position or feature entry missing a required member does not
//! decode; and wrapper values cross the wire as bare strings.

use vstd::prelude::*;
use crate::json::{JsonV, jv_obj_get, lemma_obj_get_append};
use crate::model::{ResumeView, BasicsView, LocationView, ProfileView, WorkView, PositionView, VolunteerView, EducationView, AwardView, CertificateView, PublicationView, SkillView, LanguageView, InterestView, ReferenceView, ProjectView, FeatureView, MetaView};
use crate::wire::{seg, opt_str_val, list_val, jstr_f, dec_str_f, dec_str_val, dec_opt_str, dec_req_str, dec_list, dec_opt_rec, dec_rec, all_some, dec_elems, enc_resume_fields, enc_resume, enc_resume_f, dec_resume_fields, dec_resume, dec_resume_f, enc_basics_fields, enc_basics, enc_basics_f, dec_basics_fields, dec_basics, dec_basics_f, enc_location_fields, enc_location, enc_location_f, dec_location_fields, dec_location, dec_location_f, enc_profile_fields, enc_profile, enc_profile_f, dec_profile_fields, dec_profile, dec_profile_f, enc_work_fields, enc_work, enc_work_f, dec_work_fields, dec_work, dec_work_f, enc_position_fields, enc_position, enc_position_f, dec_position_fields, dec_position, dec_position_f, enc_volunteer_fields, enc_volunteer, enc_volunteer_f, dec_volunteer_fields, dec_volunteer, dec_volunteer_f, enc_education_fields, enc_education, enc_education_f, dec_education_fields, dec_education, dec_education_f, enc_award_fields, enc_award, enc_award_f, dec_award_fields, dec_award, dec_award_f, enc_certificate_fields, enc_certificate, enc_certificate_f, dec_certificate_fields, dec_certificate, dec_certificate_f, enc_publication_fields, enc_publication, enc_publication_f, dec_publication_fields, dec_publication, dec_publication_f, enc_skill_fields, enc_skill, enc_skill_f, dec_skill_fields, dec_skill, dec_skill_f, enc_language_fields, enc_language, enc_language_f, dec_language_fields, dec_language, dec_language_f, enc_interest_fields, enc_interest, enc_interest_f, dec_interest_fields, dec_interest, dec_interest_f, enc_reference_fields, enc_reference, enc_reference_f, dec_reference_fields, dec_reference, dec_reference_f, enc_project_fields, enc_project, enc_project_f, dec_project_fields, dec_project, dec_project_f, enc_feature_fields, enc_feature, enc_feature_f, dec_feature_fields, dec_feature, dec_feature_f, enc_meta_fields, enc_meta, enc_meta_f, dec_meta_fields, dec_meta, dec_meta_f};

verus! {

broadcast use vstd::string::group_string_axioms;

/// Looking a name up in the one-member list of one field finds that
/// field's value exactly when the names agree.
pub proof fn lemma_get_seg(name: Seq<char>, v: Option<JsonV>, k: Seq<char>)
    ensures
        jv_obj_get(seg(name, v), k) == (if k == name {
            v
        } else {
            Option::<JsonV>::None
        }),
{
    match v {
        Option::Some(j) => {
            assert(seg(name, v).len() == 1);
            assert(seg(name, v)[0] == (name, j));
            if k != name {
                assert(seg(name, v).drop_first().len() == 0);
                assert(jv_obj_get(seg(name, v).drop_first(), k)
                    == Option::<JsonV>::None);
            }
        },
        Option::None => {
            assert(seg(name, v).len() == 0);
        },
    }
}

/// An array made by encoding every element decodes back to the elements.
pub proof fn lemma_list_roundtrip<A>(
    s: Seq<A>,
    e: spec_fn(A) -> JsonV,
    d: spec_fn(JsonV) -> Option<A>,
)
    requires
        forall|a: A| #[trigger] d(e(a)) == Some(a),
    ensures
        all_some(s.map_values(e), d),
        dec_elems(s.map_values(e), d) == s,
{
    let m = s.map_values(e);
    assert forall|i: int| 0 <= i < m.len() implies (#[trigger] d(m[i])) is Some by {
        assert(m[i] == e(s[i]));
        assert(d(e(s[i])) == Some(s[i]));
    }
    assert forall|i: int| 0 <= i < m.len() implies dec_elems(m, d)[i] == s[i] by {
        assert(m[i] == e(s[i]));
        assert(dec_elems(m, d)[i] == d(m[i]).unwrap());
    }
    assert(dec_elems(m, d) =~= s);
}

/// A [`LocationView`] survives the round trip through the wire format.
#[verifier::rlimit(20)]
pub proof fn lemma_location_roundtrip(v: LocationView)
    ensures
        dec_location(enc_location(v)) == Some(v),
{
    reveal_strlit("address");
    assert("address"@.len() == 7);
    reveal_strlit("city");
    assert("city"@.len() == 4);
    reveal_strlit("countryCode");
    assert("countryCode"@.len() == 11);
    reveal_strlit("postalCode");
    assert("postalCode"@.len() == 10);
    reveal_strlit("region");
    assert("region"@.len() == 6);
    assert("address"@ != "postalCode"@);
    assert("address"@ != "city"@);
    assert("address"@ != "countryCode"@);
    assert("address"@ != "region"@);
    assert("postalCode"@ != "city"@);
    assert("postalCode"@ != "countryCode"@);
    assert("postalCode"@ != "region"@);
    assert("city"@ != "countryCode"@);
    assert("city"@ != "region"@);
    assert("countryCode"@ != "region"@);
    let f = enc_location_fields(v);
    let s1 = seg("address"@, opt_str_val(v.address));
    let s2 = seg("postalCode"@, opt_str_val(v.postal_code));
    let s3 = seg("city"@, opt_str_val(v.city));
    let s4 = seg("countryCode"@, opt_str_val(v.country_code));
    let s5 = seg("region"@, opt_str_val(v.region));
    let p1 = s1;
    let p2 = p1 + s2;
    let p3 = p2 + s3;
    let p4 = p3 + s4;
    let p5 = p4 + s5;
    lemma_get_seg("address"@, opt_str_val(v.address), "address"@);
    lemma_get_seg("postalCode"@, opt_str_val(v.postal_code), "address"@);
    lemma_get_seg("city"@, opt_str_val(v.city), "address"@);
    lemma_get_seg("countryCode"@, opt_str_val(v.country_code), "address"@);
    lemma_get_seg("region"@, opt_str_val(v.region), "address"@);
    lemma_obj_get_append(p1, s2, "address"@);
    lemma_obj_get_append(p2, s3, "address"@);
    lemma_obj_get_append(p3, s4, "address"@);
    lemma_obj_get_append(p4, s5, "address"@);
    assert(jv_obj_get(f, "address"@) == opt_str_val(v.address));
    lemma_get_seg("address"@, opt_str_val(v.address), "postalCode"@);
    lemma_get_seg("postalCode"@, opt_str_val(v.postal_code), "postalCode"@);
    lemma_get_seg("city"@, opt_str_val(v.city), "postalCode"@);
    lemma_get_seg("countryCode"@, opt_str_val(v.country_code), "postalCode"@);
    lemma_get_seg("region"@, opt_str_val(v.region), "postalCode"@);
    lemma_obj_get_append(p1, s2, "postalCode"@);
    lemma_obj_get_append(p2, s3, "postalCode"@);
    lemma_obj_get_append(p3, s4, "postalCode"@);
    lemma_obj_get_append(p4, s5, "postalCode"@);
    assert(jv_obj_get(f, "postalCode"@) == opt_str_val(v.postal_code));
    lemma_get_seg("address"@, opt_str_val(v.address), "city"@);
    lemma_get_seg("postalCode"@, opt_str_val(v.postal_code), "city"@);
    lemma_get_seg("city"@, opt_str_val(v.city), "city"@);
    lemma_get_seg("countryCode"@, opt_str_val(v.country_code), "city"@);
    lemma_get_seg("region"@, opt_str_val(v.region), "city"@);
    lemma_obj_get_append(p1, s2, "city"@);
    lemma_obj_get_append(p2, s3, "city"@);
    lemma_obj_get_append(p3, s4, "city"@);
    lemma_obj_get_append(p4, s5, "city"@);
    assert(jv_obj_get(f, "city"@) == opt_str_val(v.city));
    lemma_get_seg("address"@, opt_str_val(v.address), "countryCode"@);
    lemma_get_seg("postalCode"@, opt_str_val(v.postal_code), "countryCode"@);
    lemma_get_seg("city"@, opt_str_val(v.city), "countryCode"@);
    lemma_get_seg("countryCode"@, opt_str_val(v.country_code), "countryCode"@);
    lemma_get_seg("region"@, opt_str_val(v.region), "countryCode"@);
    lemma_obj_get_append(p1, s2, "countryCode"@);
    lemma_obj_get_append(p2, s3, "countryCode"@);
    lemma_obj_get_append(p3, s4, "countryCode"@);
    lemma_obj_get_append(p4, s5, "countryCode"@);
    assert(jv_obj_get(f, "countryCode"@) == opt_str_val(v.country_code));
    lemma_get_seg("address"@, opt_str_val(v.address), "region"@);
    lemma_get_seg("postalCode"@, opt_str_val(v.postal_code), "region"@);
    lemma_get_seg("city"@, opt_str_val(v.city), "region"@);
    lemma_get_seg("countryCode"@, opt_str_val(v.country_code), "region"@);
    lemma_get_seg("region"@, opt_str_val(v.region), "region"@);
    lemma_obj_get_append(p1, s2, "region"@);
    lemma_obj_get_append(p2, s3, "region"@);
    lemma_obj_get_append(p3, s4, "region"@);
    lemma_obj_get_append(p4, s5, "region"@);
    assert(jv_obj_get(f, "region"@) == opt_str_val(v.region));
    assert(dec_opt_str(f, "address"@) == Some(v.address));
    assert(dec_opt_str(f, "postalCode"@) == Some(v.postal_code));
    assert(dec_opt_str(f, "city"@) == Some(v.city));
    assert(dec_opt_str(f, "countryCode"@) == Some(v.country_code));
    assert(dec_opt_str(f, "region"@) == Some(v.region));
    assert(dec_location_fields(f) is Some);
    assert(dec_location_fields(f).unwrap() =~~= v);
}

/// A [`ProfileView`] survives the round trip through the wire format.
#[verifier::rlimit(20)]
pub proof fn lemma_profile_roundtrip(v: ProfileView)
    ensures
        dec_profile(enc_profile(v)) == Some(v),
{
    reveal_strlit("network");
    assert("network"@.len() == 7);
    reveal_strlit("url");
    assert("url"@.len() == 3);
    reveal_strlit("username");
    assert("username"@.len() == 8);
    assert("network"@ != "username"@);
    assert("network"@ != "url"@);
    assert("username"@ != "url"@);
    let f = enc_profile_fields(v);
    let s1 = seg("network"@, opt_str_val(v.network));
    let s2 = seg("username"@, opt_str_val(v.username));
    let s3 = seg("url"@, opt_str_val(v.url));
    let p1 = s1;
    let p2 = p1 + s2;
    let p3 = p2 + s3;
    lemma_get_seg("network"@, opt_str_val(v.network), "network"@);
    lemma_get_seg("username"@, opt_str_val(v.username), "network"@);
    lemma_get_seg("url"@, opt_str_val(v.url), "network"@);
    lemma_obj_get_append(p1, s2, "network"@);
    lemma_obj_get_append(p2, s3, "network"@);
    assert(jv_obj_get(f, "network"@) == opt_str_val(v.network));
    lemma_get_seg("network"@, opt_str_val(v.network), "username"@);
    lemma_get_seg("username"@, opt_str_val(v.username), "username"@);
    lemma_get_seg("url"@, opt_str_val(v.url), "username"@);
    lemma_obj_get_append(p1, s2, "username"@);
    lemma_obj_get_append(p2, s3, "username"@);
    assert(jv_obj_get(f, "username"@) == opt_str_val(v.username));
    lemma_get_seg("network"@, opt_str_val(v.network), "url"@);
    lemma_get_seg("username"@, opt_str_val(v.username), "url"@);
    lemma_get_seg("url"@, opt_str_val(v.url), "url"@);
    lemma_obj_get_append(p1, s2, "url"@);
    lemma_obj_get_append(p2, s3, "url"@);
    assert(jv_obj_get(f, "url"@) == opt_str_val(v.url));
    assert(dec_opt_str(f, "network"@) == Some(v.network));
    assert(dec_opt_str(f, "username"@) == Some(v.username));
    assert(dec_opt_str(f, "url"@) == Some(v.url));
    assert(dec_profile_fields(f) is Some);
    assert(dec_profile_fields(f).unwrap() =~~= v);
}

/// A [`PositionView`] survives the round trip through the wire format.
#[verifier::rlimit(20)]
pub proof fn lemma_position_roundtrip(v: PositionView)
    ensures
        dec_position(enc_position(v)) == Some(v),
{
    reveal_strlit("endDate");
    assert("endDate"@.len() == 7);
    reveal_strlit("startDate");
    assert("startDate"@.len() == 9);
    reveal_strlit("title");
    assert("title"@.len() == 5);
    assert("title"@ != "startDate"@);
    assert("title"@ != "endDate"@);
    assert("startDate"@ != "endDate"@);
    let f = enc_position_fields(v);
    let s1 = seg("title"@, Some(JsonV::Str(v.title)));
    let s2 = seg("startDate"@, opt_str_val(v.start_date));
    let s3 = seg("endDate"@, opt_str_val(v.end_date));
    let p1 = s1;
    let p2 = p1 + s2;
    let p3 = p2 + s3;
    lemma_get_seg("title"@, Some(JsonV::Str(v.title)), "title"@);
    lemma_get_seg("startDate"@, opt_str_val(v.start_date), "title"@);
    lemma_get_seg("endDate"@, opt_str_val(v.end_date), "title"@);
    lemma_obj_get_append(p1, s2, "title"@);
    lemma_obj_get_append(p2, s3, "title"@);
    assert(jv_obj_get(f, "title"@) == Some(JsonV::Str(v.title)));
    lemma_get_seg("title"@, Some(JsonV::Str(v.title)), "startDate"@);
    lemma_get_seg("startDate"@, opt_str_val(v.start_date), "startDate"@);
    lemma_get_seg("endDate"@, opt_str_val(v.end_date), "startDate"@);
    lemma_obj_get_append(p1, s2, "startDate"@);
    lemma_obj_get_append(p2, s3, "startDate"@);
    assert(jv_obj_get(f, "startDate"@) == opt_str_val(v.start_date));
    lemma_get_seg("title"@, Some(JsonV::Str(v.title)), "endDate"@);
    lemma_get_seg("startDate"@, opt_str_val(v.start_date), "endDate"@);
    lemma_get_seg("endDate"@, opt_str_val(v.end_date), "endDate"@);
    lemma_obj_get_append(p1, s2, "endDate"@);
    lemma_obj_get_append(p2, s3, "endDate"@);
    assert(jv_obj_get(f, "endDate"@) == opt_str_val(v.end_date));
    assert(dec_req_str(f, "title"@) == Some(v.title));
    assert(dec_opt_str(f, "startDate"@) == Some(v.start_date));
    assert(dec_opt_str(f, "endDate"@) == Some(v.end_date));
    assert(dec_position_fields(f) is Some);
    assert(dec_position_fields(f).unwrap() =~~= v);
}

/// A [`FeatureView`] survives the round trip through the wire format.
#[verifier::rlimit(20)]
pub proof fn lemma_feature_roundtrip(v: FeatureView)
    ensures
        dec_feature(enc_feature(v)) == Some(v),
{
    reveal_strlit("action");
    assert("action"@.len() == 6);
    reveal_strlit("name");
    assert("name"@.len() == 4);
    reveal_strlit("result");
    assert("result"@.len() == 6);
    reveal_strlit("situation");
    assert("situation"@.len() == 9);
    reveal_strlit("task");
    assert("task"@.len() == 4);
    assert("name"@ != "situation"@);
    assert("name"@[0] != "task"@[0]);
    assert("name"@ != "task"@);
    assert("name"@ != "action"@);
    assert("name"@ != "result"@);
    assert("situation"@ != "task"@);
    assert("situation"@ != "action"@);
    assert("situation"@ != "result"@);
    assert("task"@ != "action"@);
    assert("task"@ != "result"@);
    assert("action"@[0] != "result"@[0]);
    assert("action"@ != "result"@);
    let f = enc_feature_fields(v);
    let s1 = seg("name"@, Some(JsonV::Str(v.name)));
    let s2 = seg("situation"@, Some(JsonV::Str(v.situation)));
    let s3 = seg("task"@, Some(JsonV::Str(v.task)));
    let s4 = seg("action"@, Some(JsonV::Str(v.action)));
    let s5 = seg("result"@, Some(JsonV::Str(v.result)));
    let p1 = s1;
    let p2 = p1 + s2;
    let p3 = p2 + s3;
    let p4 = p3 + s4;
    let p5 = p4 + s5;
    lemma_get_seg("name"@, Some(JsonV::Str(v.name)), "name"@);
    lemma_get_seg("situation"@, Some(JsonV::Str(v.situation)), "name"@);
    lemma_get_seg("task"@, Some(JsonV::Str(v.task)), "name"@);
    lemma_get_seg("action"@, Some(JsonV::Str(v.action)), "name"@);
    lemma_get_seg("result"@, Some(JsonV::Str(v.result)), "name"@);
    lemma_obj_get_append(p1, s2, "name"@);
    lemma_obj_get_append(p2, s3, "name"@);
    lemma_obj_get_append(p3, s4, "name"@);
    lemma_obj_get_append(p4, s5, "name"@);
    assert(jv_obj_get(f, "name"@) == Some(JsonV::Str(v.name)));
    lemma_get_seg("name"@, Some(JsonV::Str(v.name)), "situation"@);
    lemma_get_seg("situation"@, Some(JsonV::Str(v.situation)), "situation"@);
    lemma_get_seg("task"@, Some(JsonV::Str(v.task)), "situation"@);
    lemma_get_seg("action"@, Some(JsonV::Str(v.action)), "situation"@);
    lemma_get_seg("result"@, Some(JsonV::Str(v.result)), "situation"@);
    lemma_obj_get_append(p1, s2, "situation"@);
    lemma_obj_get_append(p2, s3, "situation"@);
    lemma_obj_get_append(p3, s4, "situation"@);
    lemma_obj_get_append(p4, s5, "situation"@);
    assert(jv_obj_get(f, "situation"@) == Some(JsonV::Str(v.situation)));
    lemma_get_seg("name"@, Some(JsonV::Str(v.name)), "task"@);
    lemma_get_seg("situation"@, Some(JsonV::Str(v.situation)), "task"@);
    lemma_get_seg("task"@, Some(JsonV::Str(v.task)), "task"@);
    lemma_get_seg("action"@, Some(JsonV::Str(v.action)), "task"@);
    lemma_get_seg("result"@, Some(JsonV::Str(v.result)), "task"@);
    lemma_obj_get_append(p1, s2, "task"@);
    lemma_obj_get_append(p2, s3, "task"@);
    lemma_obj_get_append(p3, s4, "task"@);
    lemma_obj_get_append(p4, s5, "task"@);
    assert(jv_obj_get(f, "task"@) == Some(JsonV::Str(v.task)));
    lemma_get_seg("name"@, Some(JsonV::Str(v.name)), "action"@);
    lemma_get_seg("situation"@, Some(JsonV::Str(v.situation)), "action"@);
    lemma_get_seg("task"@, Some(JsonV::Str(v.task)), "action"@);
    lemma_get_seg("action"@, Some(JsonV::Str(v.action)), "action"@);
    lemma_get_seg("result"@, Some(JsonV::Str(v.result)), "action"@);
    lemma_obj_get_append(p1, s2, "action"@);
    lemma_obj_get_append(p2, s3, "action"@);
    lemma_obj_get_append(p3, s4, "action"@);
    lemma_obj_get_append(p4, s5, "action"@);
    assert(jv_obj_get(f, "action"@) == Some(JsonV::Str(v.action)));
    lemma_get_seg("name"@, Some(JsonV::Str(v.name)), "result"@);
    lemma_get_seg("situation"@, Some(JsonV::Str(v.situation)), "result"@);
    lemma_get_seg("task"@, Some(JsonV::Str(v.task)), "result"@);
    lemma_get_seg("action"@, Some(JsonV::Str(v.action)), "result"@);
    lemma_get_seg("result"@, Some(JsonV::Str(v.result)), "result"@);
    lemma_obj_get_append(p1, s2, "result"@);
    lemma_obj_get_append(p2, s3, "result"@);
    lemma_obj_get_append(p3, s4, "result"@);
    lemma_obj_get_append(p4, s5, "result"@);
    assert(jv_obj_get(f, "result"@) == Some(JsonV::Str(v.result)));
    assert(dec_req_str(f, "name"@) == Some(v.name));
    assert(dec_req_str(f, "situation"@) == Some(v.situation));
    assert(dec_req_str(f, "task"@) == Some(v.task));
    assert(dec_req_str(f, "action"@) == Some(v.action));
    assert(dec_req_str(f, "result"@) == Some(v.result));
    assert(dec_feature_fields(f) is Some);
    assert(dec_feature_fields(f).unwrap() =~~= v);
}

/// A [`MetaView`] survives the round trip through the wire format.
#[verifier::rlimit(20)]
pub proof fn lemma_meta_roundtrip(v: MetaView)
    ensures
        dec_meta(enc_meta(v)) == Some(v),
{
    reveal_strlit("canonical");
    assert("canonical"@.len() == 9);
    reveal_strlit("lastModified");
    assert("lastModified"@.len() == 12);
    reveal_strlit("version");
    assert("version"@.len() == 7);
    assert("canonical"@ != "version"@);
    assert("canonical"@ != "lastModified"@);
    assert("version"@ != "lastModified"@);
    let f = enc_meta_fields(v);
    let s1 = seg("canonical"@, opt_str_val(v.canonical));
    let s2 = seg("version"@, opt_str_val(v.version));
    let s3 = seg("lastModified"@, opt_str_val(v.last_modified));
    let p1 = s1;
    let p2 = p1 + s2;
    let p3 = p2 + s3;
    lemma_get_seg("canonical"@, opt_str_val(v.canonical), "canonical"@);
    lemma_get_seg("version"@, opt_str_val(v.version), "canonical"@);
    lemma_get_seg("lastModified"@, opt_str_val(v.last_modified), "canonical"@);
    lemma_obj_get_append(p1, s2, "canonical"@);
    lemma_obj_get_append(p2, s3, "canonical"@);
    assert(jv_obj_get(f, "canonical"@) == opt_str_val(v.canonical));
    lemma_get_seg("canonical"@, opt_str_val(v.canonical), "version"@);
    lemma_get_seg("version"@, opt_str_val(v.version), "version"@);
    lemma_get_seg("lastModified"@, opt_str_val(v.last_modified), "version"@);
    lemma_obj_get_append(p1, s2, "version"@);
    lemma_obj_get_append(p2, s3, "version"@);
    assert(jv_obj_get(f, "version"@) == opt_str_val(v.version));
    lemma_get_seg("canonical"@, opt_str_val(v.canonical), "lastModified"@);
    lemma_get_seg("version"@, opt_str_val(v.version), "lastModified"@);
    lemma_get_seg("lastModified"@, opt_str_val(v.last_modified), "lastModified"@);
    lemma_obj_get_append(p1, s2, "lastModified"@);
    lemma_obj_get_append(p2, s3, "lastModified"@);
    assert(jv_obj_get(f, "lastModified"@) == opt_str_val(v.last_modified));
    assert(dec_opt_str(f, "canonical"@) == Some(v.canonical));
    assert(dec_opt_str(f, "version"@) == Some(v.version));
    assert(dec_opt_str(f, "lastModified"@) == Some(v.last_modified));
    assert(dec_meta_fields(f) is Some);
    assert(dec_meta_fields(f).unwrap() =~~= v);
}

/// A [`AwardView`] survives the round trip through the wire format.
#[verifier::rlimit(20)]
pub proof fn lemma_award_roundtrip(v: AwardView)
    ensures
        dec_award(enc_award(v)) == Some(v),
{
    reveal_strlit("awarder");
    assert("awarder"@.len() == 7);
    reveal_strlit("date");
    assert("date"@.len() == 4);
    reveal_strlit("summary");
    assert("summary"@.len() == 7);
    reveal_strlit("title");
    assert("title"@.len() == 5);
    assert("title"@ != "date"@);
    assert("title"@ != "awarder"@);
    assert("title"@ != "summary"@);
    assert("date"@ != "awarder"@);
    assert("date"@ != "summary"@);
    assert("awarder"@[0] != "summary"@[0]);
    assert("awarder"@ != "summary"@);
    let f = enc_award_fields(v);
    let s1 = seg("title"@, opt_str_val(v.title));
    let s2 = seg("date"@, opt_str_val(v.date));
    let s3 = seg("awarder"@, opt_str_val(v.awarder));
    let s4 = seg("summary"@, opt_str_val(v.summary));
    let p1 = s1;
    let p2 = p1 + s2;
    let p3 = p2 + s3;
    let p4 = p3 + s4;
    lemma_get_seg("title"@, opt_str_val(v.title), "title"@);
    lemma_get_seg("date"@, opt_str_val(v.date), "title"@);
    lemma_get_seg("awarder"@, opt_str_val(v.awarder), "title"@);
    lemma_get_seg("summary"@, opt_str_val(v.summary), "title"@);
    lemma_obj_get_append(p1, s2, "title"@);
    lemma_obj_get_append(p2, s3, "title"@);
    lemma_obj_get_append(p3, s4, "title"@);
    assert(jv_obj_get(f, "title"@) == opt_str_val(v.title));
    lemma_get_seg("title"@, opt_str_val(v.title), "date"@);
    lemma_get_seg("date"@, opt_str_val(v.date), "date"@);
    lemma_get_seg("awarder"@, opt_str_val(v.awarder), "date"@);
    lemma_get_seg("summary"@, opt_str_val(v.summary), "date"@);
    lemma_obj_get_append(p1, s2, "date"@);
    lemma_obj_get_append(p2, s3, "date"@);
    lemma_obj_get_append(p3, s4, "date"@);
    assert(jv_obj_get(f, "date"@) == opt_str_val(v.date));
    lemma_get_seg("title"@, opt_str_val(v.title), "awarder"@);
    lemma_get_seg("date"@, opt_str_val(v.date), "awarder"@);
    lemma_get_seg("awarder"@, opt_str_val(v.awarder), "awarder"@);
    lemma_get_seg("summary"@, opt_str_val(v.summary), "awarder"@);
    lemma_obj_get_append(p1, s2, "awarder"@);
    lemma_obj_get_append(p2, s3, "awarder"@);
    lemma_obj_get_append(p3, s4, "awarder"@);
    assert(jv_obj_get(f, "awarder"@) == opt_str_val(v.awarder));
    lemma_get_seg("title"@, opt_str_val(v.title), "summary"@);
    lemma_get_seg("date"@, opt_str_val(v.date), "summary"@);
    lemma_get_seg("awarder"@, opt_str_val(v.awarder), "summary"@);
    lemma_get_seg("summary"@, opt_str_val(v.summary), "summary"@);
    lemma_obj_get_append(p1, s2, "summary"@);
    lemma_obj_get_append(p2, s3, "summary"@);
    lemma_obj_get_append(p3, s4, "summary"@);
    assert(jv_obj_get(f, "summary"@) == opt_str_val(v.summary));
    assert(dec_opt_str(f, "title"@) == Some(v.title));
    assert(dec_opt_str(f, "date"@) == Some(v.date));
    assert(dec_opt_str(f, "awarder"@) == Some(v.awarder));
    assert(dec_opt_str(f, "summary"@) == Some(v.summary));
    assert(dec_award_fields(f) is Some);
    assert(dec_award_fields(f).unwrap() =~~= v);
}

/// A [`CertificateView`] survives the round trip through the wire format.
#[verifier::rlimit(20)]
pub proof fn lemma_certificate_roundtrip(v: CertificateView)
    ensures
        dec_certificate(enc_certificate(v)) == Some(v),
{
    reveal_strlit("date");
    assert("date"@.len() == 4);
    reveal_strlit("issuer");
    assert("issuer"@.len() == 6);
    reveal_strlit("name");
    assert("name"@.len() == 4);
    reveal_strlit("url");
    assert("url"@.len() == 3);
    assert("name"@[0] != "date"@[0]);
    assert("name"@ != "date"@);
    assert("name"@ != "url"@);
    assert("name"@ != "issuer"@);
    assert("date"@ != "url"@);
    assert("date"@ != "issuer"@);
    assert("url"@ != "issuer"@);
    let f = enc_certificate_fields(v);
    let s1 = seg("name"@, opt_str_val(v.name));
    let s2 = seg("date"@, opt_str_val(v.date));
    let s3 = seg("url"@, opt_str_val(v.url));
    let s4 = seg("issuer"@, opt_str_val(v.issuer));
    let p1 = s1;
    let p2 = p1 + s2;
    let p3 = p2 + s3;
    let p4 = p3 + s4;
    lemma_get_seg("name"@, opt_str_val(v.name), "name"@);
    lemma_get_seg("date"@, opt_str_val(v.date), "name"@);
    lemma_get_seg("url"@, opt_str_val(v.url), "name"@);
    lemma_get_seg("issuer"@, opt_str_val(v.issuer), "name"@);
    lemma_obj_get_append(p1, s2, "name"@);
    lemma_obj_get_append(p2, s3, "name"@);
    lemma_obj_get_append(p3, s4, "name"@);
    assert(jv_obj_get(f, "name"@) == opt_str_val(v.name));
    lemma_get_seg("name"@, opt_str_val(v.name), "date"@);
    lemma_get_seg("date"@, opt_str_val(v.date), "date"@);
    lemma_get_seg("url"@, opt_str_val(v.url), "date"@);
    lemma_get_seg("issuer"@, opt_str_val(v.issuer), "date"@);
    lemma_obj_get_append(p1, s2, "date"@);
    lemma_obj_get_append(p2, s3, "date"@);
    lemma_obj_get_append(p3, s4, "date"@);
    assert(jv_obj_get(f, "date"@) == opt_str_val(v.date));
    lemma_get_seg("name"@, opt_str_val(v.name), "url"@);
    lemma_get_seg("date"@, opt_str_val(v.date), "url"@);
    lemma_get_seg("url"@, opt_str_val(v.url), "url"@);
    lemma_get_seg("issuer"@, opt_str_val(v.issuer), "url"@);
    lemma_obj_get_append(p1, s2, "url"@);
    lemma_obj_get_append(p2, s3, "url"@);
    lemma_obj_get_append(p3, s4, "url"@);
    assert(jv_obj_get(f, "url"@) == opt_str_val(v.url));
    lemma_get_seg("name"@, opt_str_val(v.name), "issuer"@);
    lemma_get_seg("date"@, opt_str_val(v.date), "issuer"@);
    lemma_get_seg("url"@, opt_str_val(v.url), "issuer"@);
    lemma_get_seg("issuer"@, opt_str_val(v.issuer), "issuer"@);
    lemma_obj_get_append(p1, s2, "issuer"@);
    lemma_obj_get_append(p2, s3, "issuer"@);
    lemma_obj_get_append(p3, s4, "issuer"@);
    assert(jv_obj_get(f, "issuer"@) == opt_str_val(v.issuer));
    assert(dec_opt_str(f, "name"@) == Some(v.name));
    assert(dec_opt_str(f, "date"@) == Some(v.date));
    assert(dec_opt_str(f, "url"@) == Some(v.url));
    assert(dec_opt_str(f, "issuer"@) == Some(v.issuer));
    assert(dec_certificate_fields(f) is Some);
    assert(dec_certificate_fields(f).unwrap() =~~= v);
}

/// A [`PublicationView`] survives the round trip through the wire format.
#[verifier::rlimit(20)]
pub proof fn lemma_publication_roundtrip(v: PublicationView)
    ensures
        dec_publication(enc_publication(v)) == Some(v),
{
    reveal_strlit("name");
    assert("name"@.len() == 4);
    reveal_strlit("publisher");
    assert("publisher"@.len() == 9);
    reveal_strlit("releaseDate");
    assert("releaseDate"@.len() == 11);
    reveal_strlit("summary");
    assert("summary"@.len() == 7);
    reveal_strlit("url");
    assert("url"@.len() == 3);
    assert("name"@ != "publisher"@);
    assert("name"@ != "releaseDate"@);
    assert("name"@ != "url"@);
    assert("name"@ != "summary"@);
    assert("publisher"@ != "releaseDate"@);
    assert("publisher"@ != "url"@);
    assert("publisher"@ != "summary"@);
    assert("releaseDate"@ != "url"@);
    assert("releaseDate"@ != "summary"@);
    assert("url"@ != "summary"@);
    let f = enc_publication_fields(v);
    let s1 = seg("name"@, opt_str_val(v.name));
    let s2 = seg("publisher"@, opt_str_val(v.publisher));
    let s3 = seg("releaseDate"@, opt_str_val(v.release_date));
    let s4 = seg("url"@, opt_str_val(v.url));
    let s5 = seg("summary"@, opt_str_val(v.summary));
    let p1 = s1;
    let p2 = p1 + s2;
    let p3 = p2 + s3;
    let p4 = p3 + s4;
    let p5 = p4 + s5;
    lemma_get_seg("name"@, opt_str_val(v.name), "name"@);
    lemma_get_seg("publisher"@, opt_str_val(v.publisher), "name"@);
    lemma_get_seg("releaseDate"@, opt_str_val(v.release_date), "name"@);
    lemma_get_seg("url"@, opt_str_val(v.url), "name"@);
    lemma_get_seg("summary"@, opt_str_val(v.summary), "name"@);
    lemma_obj_get_append(p1, s2, "name"@);
    lemma_obj_get_append(p2, s3, "name"@);
    lemma_obj_get_append(p3, s4, "name"@);
    lemma_obj_get_append(p4, s5, "name"@);
    assert(jv_obj_get(f, "name"@) == opt_str_val(v.name));
    lemma_get_seg("name"@, opt_str_val(v.name), "publisher"@);
    lemma_get_seg("publisher"@, opt_str_val(v.publisher), "publisher"@);
    lemma_get_seg("releaseDate"@, opt_str_val(v.release_date), "publisher"@);
    lemma_get_seg("url"@, opt_str_val(v.url), "publisher"@);
    lemma_get_seg("summary"@, opt_str_val(v.summary), "publisher"@);
    lemma_obj_get_append(p1, s2, "publisher"@);
    lemma_obj_get_append(p2, s3, "publisher"@);
    lemma_obj_get_append(p3, s4, "publisher"@);
    lemma_obj_get_append(p4, s5, "publisher"@);
    assert(jv_obj_get(f, "publisher"@) == opt_str_val(v.publisher));
    lemma_get_seg("name"@, opt_str_val(v.name), "releaseDate"@);
    lemma_get_seg("publisher"@, opt_str_val(v.publisher), "releaseDate"@);
    lemma_get_seg("releaseDate"@, opt_str_val(v.release_date), "releaseDate"@);
    lemma_get_seg("url"@, opt_str_val(v.url), "releaseDate"@);
    lemma_get_seg("summary"@, opt_str_val(v.summary), "releaseDate"@);
    lemma_obj_get_append(p1, s2, "releaseDate"@);
    lemma_obj_get_append(p2, s3, "releaseDate"@);
    lemma_obj_get_append(p3, s4, "releaseDate"@);
    lemma_obj_get_append(p4, s5, "releaseDate"@);
    assert(jv_obj_get(f, "releaseDate"@) == opt_str_val(v.release_date));
    lemma_get_seg("name"@, opt_str_val(v.name), "url"@);
    lemma_get_seg("publisher"@, opt_str_val(v.publisher), "url"@);
    lemma_get_seg("releaseDate"@, opt_str_val(v.release_date), "url"@);
    lemma_get_seg("url"@, opt_str_val(v.url), "url"@);
    lemma_get_seg("summary"@, opt_str_val(v.summary), "url"@);
    lemma_obj_get_append(p1, s2, "url"@);
    lemma_obj_get_append(p2, s3, "url"@);
    lemma_obj_get_append(p3, s4, "url"@);
    lemma_obj_get_append(p4, s5, "url"@);
    assert(jv_obj_get(f, "url"@) == opt_str_val(v.url));
    lemma_get_seg("name"@, opt_str_val(v.name), "summary"@);
    lemma_get_seg("publisher"@, opt_str_val(v.publisher), "summary"@);
    lemma_get_seg("releaseDate"@, opt_str_val(v.release_date), "summary"@);
    lemma_get_seg("url"@, opt_str_val(v.url), "summary"@);
    lemma_get_seg("summary"@, opt_str_val(v.summary), "summary"@);
    lemma_obj_get_append(p1, s2, "summary"@);
    lemma_obj_get_append(p2, s3, "summary"@);
    lemma_obj_get_append(p3, s4, "summary"@);
    lemma_obj_get_append(p4, s5, "summary"@);
    assert(jv_obj_get(f, "summary"@) == opt_str_val(v.summary));
    assert(dec_opt_str(f, "name"@) == Some(v.name));
    assert(dec_opt_str(f, "publisher"@) == Some(v.publisher));
    assert(dec_opt_str(f, "releaseDate"@) == Some(v.release_date));
    assert(dec_opt_str(f, "url"@) == Some(v.url));
    assert(dec_opt_str(f, "summary"@) == Some(v.summary));
    assert(dec_publication_fields(f) is Some);
    assert(dec_publication_fields(f).unwrap() =~~= v);
}

/// A [`LanguageView`] survives the round trip through the wire format.
#[verifier::rlimit(20)]
pub proof fn lemma_language_roundtrip(v: LanguageView)
    ensures
        dec_language(enc_language(v)) == Some(v),
{
    reveal_strlit("fluency");
    assert("fluency"@.len() == 7);
    reveal_strlit("language");
    assert("language"@.len() == 8);
    assert("language"@ != "fluency"@);
    let f = enc_language_fields(v);
    let s1 = seg("language"@, opt_str_val(v.language));
    let s2 = seg("fluency"@, opt_str_val(v.fluency));
    let p1 = s1;
    let p2 = p1 + s2;
    lemma_get_seg("language"@, opt_str_val(v.language), "language"@);
    lemma_get_seg("fluency"@, opt_str_val(v.fluency), "language"@);
    lemma_obj_get_append(p1, s2, "language"@);
    assert(jv_obj_get(f, "language"@) == opt_str_val(v.language));
    lemma_get_seg("language"@, opt_str_val(v.language), "fluency"@);
    lemma_get_seg("fluency"@, opt_str_val(v.fluency), "fluency"@);
    lemma_obj_get_append(p1, s2, "fluency"@);
    assert(jv_obj_get(f, "fluency"@) == opt_str_val(v.fluency));
    assert(dec_opt_str(f, "language"@) == Some(v.language));
    assert(dec_opt_str(f, "fluency"@) == Some(v.fluency));
    assert(dec_language_fields(f) is Some);
    assert(dec_language_fields(f).unwrap() =~~= v);
}

/// A [`InterestView`] survives the round trip through the wire format.
#[verifier::rlimit(20)]
pub proof fn lemma_interest_roundtrip(v: InterestView)
    ensures
        dec_interest(enc_interest(v)) == Some(v),
{
    reveal_strlit("keywords");
    assert("keywords"@.len() == 8);
    reveal_strlit("name");
    assert("name"@.len() == 4);
    assert("name"@ != "keywords"@);
    let f = enc_interest_fields(v);
    let s1 = seg("name"@, opt_str_val(v.name));
    let s2 = seg("keywords"@, list_val(v.keywords.map_values(jstr_f())));
    let p1 = s1;
    let p2 = p1 + s2;
    lemma_get_seg("name"@, opt_str_val(v.name), "name"@);
    lemma_get_seg("keywords"@, list_val(v.keywords.map_values(jstr_f())), "name"@);
    lemma_obj_get_append(p1, s2, "name"@);
    assert(jv_obj_get(f, "name"@) == opt_str_val(v.name));
    lemma_get_seg("name"@, opt_str_val(v.name), "keywords"@);
    lemma_get_seg("keywords"@, list_val(v.keywords.map_values(jstr_f())), "keywords"@);
    lemma_obj_get_append(p1, s2, "keywords"@);
    assert(jv_obj_get(f, "keywords"@) == list_val(v.keywords.map_values(jstr_f())));
    assert(dec_opt_str(f, "name"@) == Some(v.name));
    assert forall|x: Seq<char>| #[trigger] dec_str_f()(jstr_f()(x)) == Some(x) by {
        assert(jstr_f()(x) == JsonV::Str(x));
        assert(dec_str_val(JsonV::Str(x)) == Some(x));
    }
    lemma_list_roundtrip(v.keywords, jstr_f(), dec_str_f());
    if v.keywords.len() == 0 {
        assert(v.keywords =~= Seq::<Seq<char>>::empty());
    }
    assert(dec_list(f, "keywords"@, dec_str_f()) == Some(v.keywords));
    assert(dec_interest_fields(f) is Some);
    assert(dec_interest_fields(f).unwrap() =~~= v);
}

/// A [`ReferenceView`] survives the round trip through the wire format.
#[verifier::rlimit(20)]
pub proof fn lemma_reference_roundtrip(v: ReferenceView)
    ensures
        dec_reference(enc_reference(v)) == Some(v),
{
    reveal_strlit("name");
    assert("name"@.len() == 4);
    reveal_strlit("reference");
    assert("reference"@.len() == 9);
    assert("name"@ != "reference"@);
    let f = enc_reference_fields(v);
    let s1 = seg("name"@, opt_str_val(v.name));
    let s2 = seg("reference"@, opt_str_val(v.reference));
    let p1 = s1;
    let p2 = p1 + s2;
    lemma_get_seg("name"@, opt_str_val(v.name), "name"@);
    lemma_get_seg("reference"@, opt_str_val(v.reference), "name"@);
    lemma_obj_get_append(p1, s2, "name"@);
    assert(jv_obj_get(f, "name"@) == opt_str_val(v.name));
    lemma_get_seg("name"@, opt_str_val(v.name), "reference"@);
    lemma_get_seg("reference"@, opt_str_val(v.reference), "reference"@);
    lemma_obj_get_append(p1, s2, "reference"@);
    assert(jv_obj_get(f, "reference"@) == opt_str_val(v.reference));
    assert(dec_opt_str(f, "name"@) == Some(v.name));
    assert(dec_opt_str(f, "reference"@) == Some(v.reference));
    assert(dec_reference_fields(f) is Some);
    assert(dec_reference_fields(f).unwrap() =~~= v);
}

/// A [`SkillView`] survives the round trip through the wire format.
#[verifier::rlimit(20)]
pub proof fn lemma_skill_roundtrip(v: SkillView)
    ensures
        dec_skill(enc_skill(v)) == Some(v),
{
    reveal_strlit("keywords");
    assert("keywords"@.len() == 8);
    reveal_strlit("level");
    assert("level"@.len() == 5);
    reveal_strlit("name");
    assert("name"@.len() == 4);
    assert("name"@ != "level"@);
    assert("name"@ != "keywords"@);
    assert("level"@ != "keywords"@);
    let f = enc_skill_fields(v);
    let s1 = seg("name"@, opt_str_val(v.name));
    let s2 = seg("level"@, opt_str_val(v.level));
    let s3 = seg("keywords"@, list_val(v.keywords.map_values(jstr_f())));
    let p1 = s1;
    let p2 = p1 + s2;
    let p3 = p2 + s3;
    lemma_get_seg("name"@, opt_str_val(v.name), "name"@);
    lemma_get_seg("level"@, opt_str_val(v.level), "name"@);
    lemma_get_seg("keywords"@, list_val(v.keywords.map_values(jstr_f())), "name"@);
    lemma_obj_get_append(p1, s2, "name"@);
    lemma_obj_get_append(p2, s3, "name"@);
    assert(jv_obj_get(f, "name"@) == opt_str_val(v.name));
    lemma_get_seg("name"@, opt_str_val(v.name), "level"@);
    lemma_get_seg("level"@, opt_str_val(v.level), "level"@);
    lemma_get_seg("keywords"@, list_val(v.keywords.map_values(jstr_f())), "level"@);
    lemma_obj_get_append(p1, s2, "level"@);
    lemma_obj_get_append(p2, s3, "level"@);
    assert(jv_obj_get(f, "level"@) == opt_str_val(v.level));
    lemma_get_seg("name"@, opt_str_val(v.name), "keywords"@);
    lemma_get_seg("level"@, opt_str_val(v.level), "keywords"@);
    lemma_get_seg("keywords"@, list_val(v.keywords.map_values(jstr_f())), "keywords"@);
    lemma_obj_get_append(p1, s2, "keywords"@);
    lemma_obj_get_append(p2, s3, "keywords"@);
    assert(jv_obj_get(f, "keywords"@) == list_val(v.keywords.map_values(jstr_f())));
    assert(dec_opt_str(f, "name"@) == Some(v.name));
    assert(dec_opt_str(f, "level"@) == Some(v.level));
    assert forall|x: Seq<char>| #[trigger] dec_str_f()(jstr_f()(x)) == Some(x) by {
        assert(jstr_f()(x) == JsonV::Str(x));
        assert(dec_str_val(JsonV::Str(x)) == Some(x));
    }
    lemma_list_roundtrip(v.keywords, jstr_f(), dec_str_f());
    if v.keywords.len() == 0 {
        assert(v.keywords =~= Seq::<Seq<char>>::empty());
    }
    assert(dec_list(f, "keywords"@, dec_str_f()) == Some(v.keywords));
    assert(dec_skill_fields(f) is Some);
    assert(dec_skill_fields(f).unwrap() =~~= v);
}

/// A [`EducationView`] survives the round trip through the wire format.
#[verifier::rlimit(50)]
pub proof fn lemma_education_roundtrip(v: EducationView)
    ensures
        dec_education(enc_education(v)) == Some(v),
{
    reveal_strlit("area");
    assert("area"@.len() == 4);
    reveal_strlit("courses");
    assert("courses"@.len() == 7);
    reveal_strlit("degrees");
    assert("degrees"@.len() == 7);
    reveal_strlit("endDate");
    assert("endDate"@.len() == 7);
    reveal_strlit("institution");
    assert("institution"@.len() == 11);
    reveal_strlit("score");
    assert("score"@.len() == 5);
    reveal_strlit("startDate");
    assert("startDate"@.len() == 9);
    reveal_strlit("studyType");
    assert("studyType"@.len() == 9);
    reveal_strlit("url");
    assert("url"@.len() == 3);
    assert("institution"@ != "url"@);
    assert("institution"@ != "degrees"@);
    assert("institution"@ != "area"@);
    assert("institution"@ != "studyType"@);
    assert("institution"@ != "startDate"@);
    assert("institution"@ != "endDate"@);
    assert("institution"@ != "score"@);
    assert("institution"@ != "courses"@);
    assert("url"@ != "degrees"@);
    assert("url"@ != "area"@);
    assert("url"@ != "studyType"@);
    assert("url"@ != "startDate"@);
    assert("url"@ != "endDate"@);
    assert("url"@ != "score"@);
    assert("url"@ != "courses"@);
    assert("degrees"@ != "area"@);
    assert("degrees"@ != "studyType"@);
    assert("degrees"@ != "startDate"@);
    assert("degrees"@[0] != "endDate"@[0]);
    assert("degrees"@ != "endDate"@);
    assert("degrees"@ != "score"@);
    assert("degrees"@[0] != "courses"@[0]);
    assert("degrees"@ != "courses"@);
    assert("area"@ != "studyType"@);
    assert("area"@ != "startDate"@);
    assert("area"@ != "endDate"@);
    assert("area"@ != "score"@);
    assert("area"@ != "courses"@);
    assert("studyType"@[2] != "startDate"@[2]);
    assert("studyType"@ != "startDate"@);
    assert("studyType"@ != "endDate"@);
    assert("studyType"@ != "score"@);
    assert("studyType"@ != "courses"@);
    assert("startDate"@ != "endDate"@);
    assert("startDate"@ != "score"@);
    assert("startDate"@ != "courses"@);
    assert("endDate"@ != "score"@);
    assert("endDate"@[0] != "courses"@[0]);
    assert("endDate"@ != "courses"@);
    assert("score"@ != "courses"@);
    let f = enc_education_fields(v);
    let s1 = seg("institution"@, opt_str_val(v.institution));
    let s2 = seg("url"@, opt_str_val(v.url));
    let s3 = seg("degrees"@, list_val(v.degrees.map_values(jstr_f())));
    let s4 = seg("area"@, opt_str_val(v.area));
    let s5 = seg("studyType"@, opt_str_val(v.study_type));
    let s6 = seg("startDate"@, opt_str_val(v.start_date));
    let s7 = seg("endDate"@, opt_str_val(v.end_date));
    let s8 = seg("score"@, opt_str_val(v.score));
    let s9 = seg("courses"@, list_val(v.courses.map_values(jstr_f())));
    let p1 = s1;
    let p2 = p1 + s2;
    let p3 = p2 + s3;
    let p4 = p3 + s4;
    let p5 = p4 + s5;
    let p6 = p5 + s6;
    let p7 = p6 + s7;
    let p8 = p7 + s8;
    let p9 = p8 + s9;
    lemma_get_seg("institution"@, opt_str_val(v.institution), "institution"@);
    lemma_get_seg("url"@, opt_str_val(v.url), "institution"@);
    lemma_get_seg("degrees"@, list_val(v.degrees.map_values(jstr_f())), "institution"@);
    lemma_get_seg("area"@, opt_str_val(v.area), "institution"@);
    lemma_get_seg("studyType"@, opt_str_val(v.study_type), "institution"@);
    lemma_get_seg("startDate"@, opt_str_val(v.start_date), "institution"@);
    lemma_get_seg("endDate"@, opt_str_val(v.end_date), "institution"@);
    lemma_get_seg("score"@, opt_str_val(v.score), "institution"@);
    lemma_get_seg("courses"@, list_val(v.courses.map_values(jstr_f())), "institution"@);
    lemma_obj_get_append(p1, s2, "institution"@);
    lemma_obj_get_append(p2, s3, "institution"@);
    lemma_obj_get_append(p3, s4, "institution"@);
    lemma_obj_get_append(p4, s5, "institution"@);
    lemma_obj_get_append(p5, s6, "institution"@);
    lemma_obj_get_append(p6, s7, "institution"@);
    lemma_obj_get_append(p7, s8, "institution"@);
    lemma_obj_get_append(p8, s9, "institution"@);
    assert(jv_obj_get(f, "institution"@) == opt_str_val(v.institution));
    lemma_get_seg("institution"@, opt_str_val(v.institution), "url"@);
    lemma_get_seg("url"@, opt_str_val(v.url), "url"@);
    lemma_get_seg("degrees"@, list_val(v.degrees.map_values(jstr_f())), "url"@);
    lemma_get_seg("area"@, opt_str_val(v.area), "url"@);
    lemma_get_seg("studyType"@, opt_str_val(v.study_type), "url"@);
    lemma_get_seg("startDate"@, opt_str_val(v.start_date), "url"@);
    lemma_get_seg("endDate"@, opt_str_val(v.end_date), "url"@);
    lemma_get_seg("score"@, opt_str_val(v.score), "url"@);
    lemma_get_seg("courses"@, list_val(v.courses.map_values(jstr_f())), "url"@);
    lemma_obj_get_append(p1, s2, "url"@);
    lemma_obj_get_append(p2, s3, "url"@);
    lemma_obj_get_append(p3, s4, "url"@);
    lemma_obj_get_append(p4, s5, "url"@);
    lemma_obj_get_append(p5, s6, "url"@);
    lemma_obj_get_append(p6, s7, "url"@);
    lemma_obj_get_append(p7, s8, "url"@);
    lemma_obj_get_append(p8, s9, "url"@);
    assert(jv_obj_get(f, "url"@) == opt_str_val(v.url));
    lemma_get_seg("institution"@, opt_str_val(v.institution), "degrees"@);
    lemma_get_seg("url"@, opt_str_val(v.url), "degrees"@);
    lemma_get_seg("degrees"@, list_val(v.degrees.map_values(jstr_f())), "degrees"@);
    lemma_get_seg("area"@, opt_str_val(v.area), "degrees"@);
    lemma_get_seg("studyType"@, opt_str_val(v.study_type), "degrees"@);
    lemma_get_seg("startDate"@, opt_str_val(v.start_date), "degrees"@);
    lemma_get_seg("endDate"@, opt_str_val(v.end_date), "degrees"@);
    lemma_get_seg("score"@, opt_str_val(v.score), "degrees"@);
    lemma_get_seg("courses"@, list_val(v.courses.map_values(jstr_f())), "degrees"@);
    lemma_obj_get_append(p1, s2, "degrees"@);
    lemma_obj_get_append(p2, s3, "degrees"@);
    lemma_obj_get_append(p3, s4, "degrees"@);
    lemma_obj_get_append(p4, s5, "degrees"@);
    lemma_obj_get_append(p5, s6, "degrees"@);
    lemma_obj_get_append(p6, s7, "degrees"@);
    lemma_obj_get_append(p7, s8, "degrees"@);
    lemma_obj_get_append(p8, s9, "degrees"@);
    assert(jv_obj_get(f, "degrees"@) == list_val(v.degrees.map_values(jstr_f())));
    lemma_get_seg("institution"@, opt_str_val(v.institution), "area"@);
    lemma_get_seg("url"@, opt_str_val(v.url), "area"@);
    lemma_get_seg("degrees"@, list_val(v.degrees.map_values(jstr_f())), "area"@);
    lemma_get_seg("area"@, opt_str_val(v.area), "area"@);
    lemma_get_seg("studyType"@, opt_str_val(v.study_type), "area"@);
    lemma_get_seg("startDate"@, opt_str_val(v.start_date), "area"@);
    lemma_get_seg("endDate"@, opt_str_val(v.end_date), "area"@);
    lemma_get_seg("score"@, opt_str_val(v.score), "area"@);
    lemma_get_seg("courses"@, list_val(v.courses.map_values(jstr_f())), "area"@);
    lemma_obj_get_append(p1, s2, "area"@);
    lemma_obj_get_append(p2, s3, "area"@);
    lemma_obj_get_append(p3, s4, "area"@);
    lemma_obj_get_append(p4, s5, "area"@);
    lemma_obj_get_append(p5, s6, "area"@);
    lemma_obj_get_append(p6, s7, "area"@);
    lemma_obj_get_append(p7, s8, "area"@);
    lemma_obj_get_append(p8, s9, "area"@);
    assert(jv_obj_get(f, "area"@) == opt_str_val(v.area));
    lemma_get_seg("institution"@, opt_str_val(v.institution), "studyType"@);
    lemma_get_seg("url"@, opt_str_val(v.url), "studyType"@);
    lemma_get_seg("degrees"@, list_val(v.degrees.map_values(jstr_f())), "studyType"@);
    lemma_get_seg("area"@, opt_str_val(v.area), "studyType"@);
    lemma_get_seg("studyType"@, opt_str_val(v.study_type), "studyType"@);
    lemma_get_seg("startDate"@, opt_str_val(v.start_date), "studyType"@);
    lemma_get_seg("endDate"@, opt_str_val(v.end_date), "studyType"@);
    lemma_get_seg("score"@, opt_str_val(v.score), "studyType"@);
    lemma_get_seg("courses"@, list_val(v.courses.map_values(jstr_f())), "studyType"@);
    lemma_obj_get_append(p1, s2, "studyType"@);
    lemma_obj_get_append(p2, s3, "studyType"@);
    lemma_obj_get_append(p3, s4, "studyType"@);
    lemma_obj_get_append(p4, s5, "studyType"@);
    lemma_obj_get_append(p5, s6, "studyType"@);
    lemma_obj_get_append(p6, s7, "studyType"@);
    lemma_obj_get_append(p7, s8, "studyType"@);
    lemma_obj_get_append(p8, s9, "studyType"@);
    assert(jv_obj_get(f, "studyType"@) == opt_str_val(v.study_type));
    lemma_get_seg("institution"@, opt_str_val(v.institution), "startDate"@);
    lemma_get_seg("url"@, opt_str_val(v.url), "startDate"@);
    lemma_get_seg("degrees"@, list_val(v.degrees.map_values(jstr_f())), "startDate"@);
    lemma_get_seg("area"@, opt_str_val(v.area), "startDate"@);
    lemma_get_seg("studyType"@, opt_str_val(v.study_type), "startDate"@);
    lemma_get_seg("startDate"@, opt_str_val(v.start_date), "startDate"@);
    lemma_get_seg("endDate"@, opt_str_val(v.end_date), "startDate"@);
    lemma_get_seg("score"@, opt_str_val(v.score), "startDate"@);
    lemma_get_seg("courses"@, list_val(v.courses.map_values(jstr_f())), "startDate"@);
    lemma_obj_get_append(p1, s2, "startDate"@);
    lemma_obj_get_append(p2, s3, "startDate"@);
    lemma_obj_get_append(p3, s4, "startDate"@);
    lemma_obj_get_append(p4, s5, "startDate"@);
    lemma_obj_get_append(p5, s6, "startDate"@);
    lemma_obj_get_append(p6, s7, "startDate"@);
    lemma_obj_get_append(p7, s8, "startDate"@);
    lemma_obj_get_append(p8, s9, "startDate"@);
    assert(jv_obj_get(f, "startDate"@) == opt_str_val(v.start_date));
    lemma_get_seg("institution"@, opt_str_val(v.institution), "endDate"@);
    lemma_get_seg("url"@, opt_str_val(v.url), "endDate"@);
    lemma_get_seg("degrees"@, list_val(v.degrees.map_values(jstr_f())), "endDate"@);
    lemma_get_seg("area"@, opt_str_val(v.area), "endDate"@);
    lemma_get_seg("studyType"@, opt_str_val(v.study_type), "endDate"@);
    lemma_get_seg("startDate"@, opt_str_val(v.start_date), "endDate"@);
    lemma_get_seg("endDate"@, opt_str_val(v.end_date), "endDate"@);
    lemma_get_seg("score"@, opt_str_val(v.score), "endDate"@);
    lemma_get_seg("courses"@, list_val(v.courses.map_values(jstr_f())), "endDate"@);
    lemma_obj_get_append(p1, s2, "endDate"@);
    lemma_obj_get_append(p2, s3, "endDate"@);
    lemma_obj_get_append(p3, s4, "endDate"@);
    lemma_obj_get_append(p4, s5, "endDate"@);
    lemma_obj_get_append(p5, s6, "endDate"@);
    lemma_obj_get_append(p6, s7, "endDate"@);
    lemma_obj_get_append(p7, s8, "endDate"@);
    lemma_obj_get_append(p8, s9, "endDate"@);
    assert(jv_obj_get(f, "endDate"@) == opt_str_val(v.end_date));
    lemma_get_seg("institution"@, opt_str_val(v.institution), "score"@);
    lemma_get_seg("url"@, opt_str_val(v.url), "score"@);
    lemma_get_seg("degrees"@, list_val(v.degrees.map_values(jstr_f())), "score"@);
    lemma_get_seg("area"@, opt_str_val(v.area), "score"@);
    lemma_get_seg("studyType"@, opt_str_val(v.study_type), "score"@);
    lemma_get_seg("startDate"@, opt_str_val(v.start_date), "score"@);
    lemma_get_seg("endDate"@, opt_str_val(v.end_date), "score"@);
    lemma_get_seg("score"@, opt_str_val(v.score), "score"@);
    lemma_get_seg("courses"@, list_val(v.courses.map_values(jstr_f())), "score"@);
    lemma_obj_get_append(p1, s2, "score"@);
    lemma_obj_get_append(p2, s3, "score"@);
    lemma_obj_get_append(p3, s4, "score"@);
    lemma_obj_get_append(p4, s5, "score"@);
    lemma_obj_get_append(p5, s6, "score"@);
    lemma_obj_get_append(p6, s7, "score"@);
    lemma_obj_get_append(p7, s8, "score"@);
    lemma_obj_get_append(p8, s9, "score"@);
    assert(jv_obj_get(f, "score"@) == opt_str_val(v.score));
    lemma_get_seg("institution"@, opt_str_val(v.institution), "courses"@);
    lemma_get_seg("url"@, opt_str_val(v.url), "courses"@);
    lemma_get_seg("degrees"@, list_val(v.degrees.map_values(jstr_f())), "courses"@);
    lemma_get_seg("area"@, opt_str_val(v.area), "courses"@);
    lemma_get_seg("studyType"@, opt_str_val(v.study_type), "courses"@);
    lemma_get_seg("startDate"@, opt_str_val(v.start_date), "courses"@);
    lemma_get_seg("endDate"@, opt_str_val(v.end_date), "courses"@);
    lemma_get_seg("score"@, opt_str_val(v.score), "courses"@);
    lemma_get_seg("courses"@, list_val(v.courses.map_values(jstr_f())), "courses"@);
    lemma_obj_get_append(p1, s2, "courses"@);
    lemma_obj_get_append(p2, s3, "courses"@);
    lemma_obj_get_append(p3, s4, "courses"@);
    lemma_obj_get_append(p4, s5, "courses"@);
    lemma_obj_get_append(p5, s6, "courses"@);
    lemma_obj_get_append(p6, s7, "courses"@);
    lemma_obj_get_append(p7, s8, "courses"@);
    lemma_obj_get_append(p8, s9, "courses"@);
    assert(jv_obj_get(f, "courses"@) == list_val(v.courses.map_values(jstr_f())));
    assert(dec_opt_str(f, "institution"@) == Some(v.institution));
    assert(dec_opt_str(f, "url"@) == Some(v.url));
    assert forall|x: Seq<char>| #[trigger] dec_str_f()(jstr_f()(x)) == Some(x) by {
        assert(jstr_f()(x) == JsonV::Str(x));
        assert(dec_str_val(JsonV::Str(x)) == Some(x));
    }
    lemma_list_roundtrip(v.degrees, jstr_f(), dec_str_f());
    if v.degrees.len() == 0 {
        assert(v.degrees =~= Seq::<Seq<char>>::empty());
    }
    assert(dec_list(f, "degrees"@, dec_str_f()) == Some(v.degrees));
    assert(dec_opt_str(f, "area"@) == Some(v.area));
    assert(dec_opt_str(f, "studyType"@) == Some(v.study_type));
    assert(dec_opt_str(f, "startDate"@) == Some(v.start_date));
    assert(dec_opt_str(f, "endDate"@) == Some(v.end_date));
    assert(dec_opt_str(f, "score"@) == Some(v.score));
    assert forall|x: Seq<char>| #[trigger] dec_str_f()(jstr_f()(x)) == Some(x) by {
        assert(jstr_f()(x) == JsonV::Str(x));
        assert(dec_str_val(JsonV::Str(x)) == Some(x));
    }
    lemma_list_roundtrip(v.courses, jstr_f(), dec_str_f());
    if v.courses.len() == 0 {
        assert(v.courses =~= Seq::<Seq<char>>::empty());
    }
    assert(dec_list(f, "courses"@, dec_str_f()) == Some(v.courses));
    assert(dec_education_fields(f) is Some);
    assert(dec_education_fields(f).unwrap() =~~= v);
}

/// A [`WorkView`] survives the round trip through the wire format.
#[verifier::rlimit(50)]
pub proof fn lemma_work_roundtrip(v: WorkView)
    ensures
        dec_work(enc_work(v)) == Some(v),
{
    reveal_strlit("description");
    assert("description"@.len() == 11);
    reveal_strlit("endDate");
    assert("endDate"@.len() == 7);
    reveal_strlit("highlights");
    assert("highlights"@.len() == 10);
    reveal_strlit("location");
    assert("location"@.len() == 8);
    reveal_strlit("name");
    assert("name"@.len() == 4);
    reveal_strlit("position");
    assert("position"@.len() == 8);
    reveal_strlit("positions");
    assert("positions"@.len() == 9);
    reveal_strlit("startDate");
    assert("startDate"@.len() == 9);
    reveal_strlit("url");
    assert("url"@.len() == 3);
    assert("name"@ != "location"@);
    assert("name"@ != "description"@);
    assert("name"@ != "positions"@);
    assert("name"@ != "position"@);
    assert("name"@ != "url"@);
    assert("name"@ != "startDate"@);
    assert("name"@ != "endDate"@);
    assert("name"@ != "highlights"@);
    assert("location"@ != "description"@);
    assert("location"@ != "positions"@);
    assert("location"@[0] != "position"@[0]);
    assert("location"@ != "position"@);
    assert("location"@ != "url"@);
    assert("location"@ != "startDate"@);
    assert("location"@ != "endDate"@);
    assert("location"@ != "highlights"@);
    assert("description"@ != "positions"@);
    assert("description"@ != "position"@);
    assert("description"@ != "url"@);
    assert("description"@ != "startDate"@);
    assert("description"@ != "endDate"@);
    assert("description"@ != "highlights"@);
    assert("positions"@ != "position"@);
    assert("positions"@ != "url"@);
    assert("positions"@[0] != "startDate"@[0]);
    assert("positions"@ != "startDate"@);
    assert("positions"@ != "endDate"@);
    assert("positions"@ != "highlights"@);
    assert("position"@ != "url"@);
    assert("position"@ != "startDate"@);
    assert("position"@ != "endDate"@);
    assert("position"@ != "highlights"@);
    assert("url"@ != "startDate"@);
    assert("url"@ != "endDate"@);
    assert("url"@ != "highlights"@);
    assert("startDate"@ != "endDate"@);
    assert("startDate"@ != "highlights"@);
    assert("endDate"@ != "highlights"@);
    let f = enc_work_fields(v);
    let s1 = seg("name"@, opt_str_val(v.name));
    let s2 = seg("location"@, opt_str_val(v.location));
    let s3 = seg("description"@, opt_str_val(v.description));
    let s4 = seg("positions"@, list_val(v.positions.map_values(enc_position_f())));
    let s5 = seg("position"@, opt_str_val(v.position));
    let s6 = seg("url"@, opt_str_val(v.url));
    let s7 = seg("startDate"@, opt_str_val(v.start_date));
    let s8 = seg("endDate"@, opt_str_val(v.end_date));
    let s9 = seg("highlights"@, list_val(v.highlights.map_values(jstr_f())));
    let p1 = s1;
    let p2 = p1 + s2;
    let p3 = p2 + s3;
    let p4 = p3 + s4;
    let p5 = p4 + s5;
    let p6 = p5 + s6;
    let p7 = p6 + s7;
    let p8 = p7 + s8;
    let p9 = p8 + s9;
    lemma_get_seg("name"@, opt_str_val(v.name), "name"@);
    lemma_get_seg("location"@, opt_str_val(v.location), "name"@);
    lemma_get_seg("description"@, opt_str_val(v.description), "name"@);
    lemma_get_seg("positions"@, list_val(v.positions.map_values(enc_position_f())), "name"@);
    lemma_get_seg("position"@, opt_str_val(v.position), "name"@);
    lemma_get_seg("url"@, opt_str_val(v.url), "name"@);
    lemma_get_seg("startDate"@, opt_str_val(v.start_date), "name"@);
    lemma_get_seg("endDate"@, opt_str_val(v.end_date), "name"@);
    lemma_get_seg("highlights"@, list_val(v.highlights.map_values(jstr_f())), "name"@);
    lemma_obj_get_append(p1, s2, "name"@);
    lemma_obj_get_append(p2, s3, "name"@);
    lemma_obj_get_append(p3, s4, "name"@);
    lemma_obj_get_append(p4, s5, "name"@);
    lemma_obj_get_append(p5, s6, "name"@);
    lemma_obj_get_append(p6, s7, "name"@);
    lemma_obj_get_append(p7, s8, "name"@);
    lemma_obj_get_append(p8, s9, "name"@);
    assert(jv_obj_get(f, "name"@) == opt_str_val(v.name));
    lemma_get_seg("name"@, opt_str_val(v.name), "location"@);
    lemma_get_seg("location"@, opt_str_val(v.location), "location"@);
    lemma_get_seg("description"@, opt_str_val(v.description), "location"@);
    lemma_get_seg("positions"@, list_val(v.positions.map_values(enc_position_f())), "location"@);
    lemma_get_seg("position"@, opt_str_val(v.position), "location"@);
    lemma_get_seg("url"@, opt_str_val(v.url), "location"@);
    lemma_get_seg("startDate"@, opt_str_val(v.start_date), "location"@);
    lemma_get_seg("endDate"@, opt_str_val(v.end_date), "location"@);
    lemma_get_seg("highlights"@, list_val(v.highlights.map_values(jstr_f())), "location"@);
    lemma_obj_get_append(p1, s2, "location"@);
    lemma_obj_get_append(p2, s3, "location"@);
    lemma_obj_get_append(p3, s4, "location"@);
    lemma_obj_get_append(p4, s5, "location"@);
    lemma_obj_get_append(p5, s6, "location"@);
    lemma_obj_get_append(p6, s7, "location"@);
    lemma_obj_get_append(p7, s8, "location"@);
    lemma_obj_get_append(p8, s9, "location"@);
    assert(jv_obj_get(f, "location"@) == opt_str_val(v.location));
    lemma_get_seg("name"@, opt_str_val(v.name), "description"@);
    lemma_get_seg("location"@, opt_str_val(v.location), "description"@);
    lemma_get_seg("description"@, opt_str_val(v.description), "description"@);
    lemma_get_seg("positions"@, list_val(v.positions.map_values(enc_position_f())), "description"@);
    lemma_get_seg("position"@, opt_str_val(v.position), "description"@);
    lemma_get_seg("url"@, opt_str_val(v.url), "description"@);
    lemma_get_seg("startDate"@, opt_str_val(v.start_date), "description"@);
    lemma_get_seg("endDate"@, opt_str_val(v.end_date), "description"@);
    lemma_get_seg("highlights"@, list_val(v.highlights.map_values(jstr_f())), "description"@);
    lemma_obj_get_append(p1, s2, "description"@);
    lemma_obj_get_append(p2, s3, "description"@);
    lemma_obj_get_append(p3, s4, "description"@);
    lemma_obj_get_append(p4, s5, "description"@);
    lemma_obj_get_append(p5, s6, "description"@);
    lemma_obj_get_append(p6, s7, "description"@);
    lemma_obj_get_append(p7, s8, "description"@);
    lemma_obj_get_append(p8, s9, "description"@);
    assert(jv_obj_get(f, "description"@) == opt_str_val(v.description));
    lemma_get_seg("name"@, opt_str_val(v.name), "positions"@);
    lemma_get_seg("location"@, opt_str_val(v.location), "positions"@);
    lemma_get_seg("description"@, opt_str_val(v.description), "positions"@);
    lemma_get_seg("positions"@, list_val(v.positions.map_values(enc_position_f())), "positions"@);
    lemma_get_seg("position"@, opt_str_val(v.position), "positions"@);
    lemma_get_seg("url"@, opt_str_val(v.url), "positions"@);
    lemma_get_seg("startDate"@, opt_str_val(v.start_date), "positions"@);
    lemma_get_seg("endDate"@, opt_str_val(v.end_date), "positions"@);
    lemma_get_seg("highlights"@, list_val(v.highlights.map_values(jstr_f())), "positions"@);
    lemma_obj_get_append(p1, s2, "positions"@);
    lemma_obj_get_append(p2, s3, "positions"@);
    lemma_obj_get_append(p3, s4, "positions"@);
    lemma_obj_get_append(p4, s5, "positions"@);
    lemma_obj_get_append(p5, s6, "positions"@);
    lemma_obj_get_append(p6, s7, "positions"@);
    lemma_obj_get_append(p7, s8, "positions"@);
    lemma_obj_get_append(p8, s9, "positions"@);
    assert(jv_obj_get(f, "positions"@) == list_val(v.positions.map_values(enc_position_f())));
    lemma_get_seg("name"@, opt_str_val(v.name), "position"@);
    lemma_get_seg("location"@, opt_str_val(v.location), "position"@);
    lemma_get_seg("description"@, opt_str_val(v.description), "position"@);
    lemma_get_seg("positions"@, list_val(v.positions.map_values(enc_position_f())), "position"@);
    lemma_get_seg("position"@, opt_str_val(v.position), "position"@);
    lemma_get_seg("url"@, opt_str_val(v.url), "position"@);
    lemma_get_seg("startDate"@, opt_str_val(v.start_date), "position"@);
    lemma_get_seg("endDate"@, opt_str_val(v.end_date), "position"@);
    lemma_get_seg("highlights"@, list_val(v.highlights.map_values(jstr_f())), "position"@);
    lemma_obj_get_append(p1, s2, "position"@);
    lemma_obj_get_append(p2, s3, "position"@);
    lemma_obj_get_append(p3, s4, "position"@);
    lemma_obj_get_append(p4, s5, "position"@);
    lemma_obj_get_append(p5, s6, "position"@);
    lemma_obj_get_append(p6, s7, "position"@);
    lemma_obj_get_append(p7, s8, "position"@);
    lemma_obj_get_append(p8, s9, "position"@);
    assert(jv_obj_get(f, "position"@) == opt_str_val(v.position));
    lemma_get_seg("name"@, opt_str_val(v.name), "url"@);
    lemma_get_seg("location"@, opt_str_val(v.location), "url"@);
    lemma_get_seg("description"@, opt_str_val(v.description), "url"@);
    lemma_get_seg("positions"@, list_val(v.positions.map_values(enc_position_f())), "url"@);
    lemma_get_seg("position"@, opt_str_val(v.position), "url"@);
    lemma_get_seg("url"@, opt_str_val(v.url), "url"@);
    lemma_get_seg("startDate"@, opt_str_val(v.start_date), "url"@);
    lemma_get_seg("endDate"@, opt_str_val(v.end_date), "url"@);
    lemma_get_seg("highlights"@, list_val(v.highlights.map_values(jstr_f())), "url"@);
    lemma_obj_get_append(p1, s2, "url"@);
    lemma_obj_get_append(p2, s3, "url"@);
    lemma_obj_get_append(p3, s4, "url"@);
    lemma_obj_get_append(p4, s5, "url"@);
    lemma_obj_get_append(p5, s6, "url"@);
    lemma_obj_get_append(p6, s7, "url"@);
    lemma_obj_get_append(p7, s8, "url"@);
    lemma_obj_get_append(p8, s9, "url"@);
    assert(jv_obj_get(f, "url"@) == opt_str_val(v.url));
    lemma_get_seg("name"@, opt_str_val(v.name), "startDate"@);
    lemma_get_seg("location"@, opt_str_val(v.location), "startDate"@);
    lemma_get_seg("description"@, opt_str_val(v.description), "startDate"@);
    lemma_get_seg("positions"@, list_val(v.positions.map_values(enc_position_f())), "startDate"@);
    lemma_get_seg("position"@, opt_str_val(v.position), "startDate"@);
    lemma_get_seg("url"@, opt_str_val(v.url), "startDate"@);
    lemma_get_seg("startDate"@, opt_str_val(v.start_date), "startDate"@);
    lemma_get_seg("endDate"@, opt_str_val(v.end_date), "startDate"@);
    lemma_get_seg("highlights"@, list_val(v.highlights.map_values(jstr_f())), "startDate"@);
    lemma_obj_get_append(p1, s2, "startDate"@);
    lemma_obj_get_append(p2, s3, "startDate"@);
    lemma_obj_get_append(p3, s4, "startDate"@);
    lemma_obj_get_append(p4, s5, "startDate"@);
    lemma_obj_get_append(p5, s6, "startDate"@);
    lemma_obj_get_append(p6, s7, "startDate"@);
    lemma_obj_get_append(p7, s8, "startDate"@);
    lemma_obj_get_append(p8, s9, "startDate"@);
    assert(jv_obj_get(f, "startDate"@) == opt_str_val(v.start_date));
    lemma_get_seg("name"@, opt_str_val(v.name), "endDate"@);
    lemma_get_seg("location"@, opt_str_val(v.location), "endDate"@);
    lemma_get_seg("description"@, opt_str_val(v.description), "endDate"@);
    lemma_get_seg("positions"@, list_val(v.positions.map_values(enc_position_f())), "endDate"@);
    lemma_get_seg("position"@, opt_str_val(v.position), "endDate"@);
    lemma_get_seg("url"@, opt_str_val(v.url), "endDate"@);
    lemma_get_seg("startDate"@, opt_str_val(v.start_date), "endDate"@);
    lemma_get_seg("endDate"@, opt_str_val(v.end_date), "endDate"@);
    lemma_get_seg("highlights"@, list_val(v.highlights.map_values(jstr_f())), "endDate"@);
    lemma_obj_get_append(p1, s2, "endDate"@);
    lemma_obj_get_append(p2, s3, "endDate"@);
    lemma_obj_get_append(p3, s4, "endDate"@);
    lemma_obj_get_append(p4, s5, "endDate"@);
    lemma_obj_get_append(p5, s6, "endDate"@);
    lemma_obj_get_append(p6, s7, "endDate"@);
    lemma_obj_get_append(p7, s8, "endDate"@);
    lemma_obj_get_append(p8, s9, "endDate"@);
    assert(jv_obj_get(f, "endDate"@) == opt_str_val(v.end_date));
    lemma_get_seg("name"@, opt_str_val(v.name), "highlights"@);
    lemma_get_seg("location"@, opt_str_val(v.location), "highlights"@);
    lemma_get_seg("description"@, opt_str_val(v.description), "highlights"@);
    lemma_get_seg("positions"@, list_val(v.positions.map_values(enc_position_f())), "highlights"@);
    lemma_get_seg("position"@, opt_str_val(v.position), "highlights"@);
    lemma_get_seg("url"@, opt_str_val(v.url), "highlights"@);
    lemma_get_seg("startDate"@, opt_str_val(v.start_date), "highlights"@);
    lemma_get_seg("endDate"@, opt_str_val(v.end_date), "highlights"@);
    lemma_get_seg("highlights"@, list_val(v.highlights.map_values(jstr_f())), "highlights"@);
    lemma_obj_get_append(p1, s2, "highlights"@);
    lemma_obj_get_append(p2, s3, "highlights"@);
    lemma_obj_get_append(p3, s4, "highlights"@);
    lemma_obj_get_append(p4, s5, "highlights"@);
    lemma_obj_get_append(p5, s6, "highlights"@);
    lemma_obj_get_append(p6, s7, "highlights"@);
    lemma_obj_get_append(p7, s8, "highlights"@);
    lemma_obj_get_append(p8, s9, "highlights"@);
    assert(jv_obj_get(f, "highlights"@) == list_val(v.highlights.map_values(jstr_f())));
    assert(dec_opt_str(f, "name"@) == Some(v.name));
    assert(dec_opt_str(f, "location"@) == Some(v.location));
    assert(dec_opt_str(f, "description"@) == Some(v.description));
    assert forall|a: PositionView| #[trigger] dec_position_f()(enc_position_f()(a)) == Some(a) by {
        lemma_position_roundtrip(a);
    }
    lemma_list_roundtrip(v.positions, enc_position_f(), dec_position_f());
    if v.positions.len() == 0 {
        assert(v.positions =~= Seq::<PositionView>::empty());
    }
    assert(dec_list(f, "positions"@, dec_position_f()) == Some(v.positions));
    assert(dec_opt_str(f, "position"@) == Some(v.position));
    assert(dec_opt_str(f, "url"@) == Some(v.url));
    assert(dec_opt_str(f, "startDate"@) == Some(v.start_date));
    assert(dec_opt_str(f, "endDate"@) == Some(v.end_date));
    assert forall|x: Seq<char>| #[trigger] dec_str_f()(jstr_f()(x)) == Some(x) by {
        assert(jstr_f()(x) == JsonV::Str(x));
        assert(dec_str_val(JsonV::Str(x)) == Some(x));
    }
    lemma_list_roundtrip(v.highlights, jstr_f(), dec_str_f());
    if v.highlights.len() == 0 {
        assert(v.highlights =~= Seq::<Seq<char>>::empty());
    }
    assert(dec_list(f, "highlights"@, dec_str_f()) == Some(v.highlights));
    assert(dec_work_fields(f) is Some);
    assert(dec_work_fields(f).unwrap() =~~= v);
}

/// A [`VolunteerView`] survives the round trip through the wire format.
#[verifier::rlimit(50)]
pub proof fn lemma_volunteer_roundtrip(v: VolunteerView)
    ensures
        dec_volunteer(enc_volunteer(v)) == Some(v),
{
    reveal_strlit("endDate");
    assert("endDate"@.len() == 7);
    reveal_strlit("highlights");
    assert("highlights"@.len() == 10);
    reveal_strlit("organization");
    assert("organization"@.len() == 12);
    reveal_strlit("position");
    assert("position"@.len() == 8);
    reveal_strlit("startDate");
    assert("startDate"@.len() == 9);
    reveal_strlit("summary");
    assert("summary"@.len() == 7);
    reveal_strlit("url");
    assert("url"@.len() == 3);
    assert("organization"@ != "position"@);
    assert("organization"@ != "url"@);
    assert("organization"@ != "startDate"@);
    assert("organization"@ != "endDate"@);
    assert("organization"@ != "summary"@);
    assert("organization"@ != "highlights"@);
    assert("position"@ != "url"@);
    assert("position"@ != "startDate"@);
    assert("position"@ != "endDate"@);
    assert("position"@ != "summary"@);
    assert("position"@ != "highlights"@);
    assert("url"@ != "startDate"@);
    assert("url"@ != "endDate"@);
    assert("url"@ != "summary"@);
    assert("url"@ != "highlights"@);
    assert("startDate"@ != "endDate"@);
    assert("startDate"@ != "summary"@);
    assert("startDate"@ != "highlights"@);
    assert("endDate"@[0] != "summary"@[0]);
    assert("endDate"@ != "summary"@);
    assert("endDate"@ != "highlights"@);
    assert("summary"@ != "highlights"@);
    let f = enc_volunteer_fields(v);
    let s1 = seg("organization"@, opt_str_val(v.organization));
    let s2 = seg("position"@, opt_str_val(v.position));
    let s3 = seg("url"@, opt_str_val(v.url));
    let s4 = seg("startDate"@, opt_str_val(v.start_date));
    let s5 = seg("endDate"@, opt_str_val(v.end_date));
    let s6 = seg("summary"@, opt_str_val(v.summary));
    let s7 = seg("highlights"@, list_val(v.highlights.map_values(jstr_f())));
    let p1 = s1;
    let p2 = p1 + s2;
    let p3 = p2 + s3;
    let p4 = p3 + s4;
    let p5 = p4 + s5;
    let p6 = p5 + s6;
    let p7 = p6 + s7;
    lemma_get_seg("organization"@, opt_str_val(v.organization), "organization"@);
    lemma_get_seg("position"@, opt_str_val(v.position), "organization"@);
    lemma_get_seg("url"@, opt_str_val(v.url), "organization"@);
    lemma_get_seg("startDate"@, opt_str_val(v.start_date), "organization"@);
    lemma_get_seg("endDate"@, opt_str_val(v.end_date), "organization"@);
    lemma_get_seg("summary"@, opt_str_val(v.summary), "organization"@);
    lemma_get_seg("highlights"@, list_val(v.highlights.map_values(jstr_f())), "organization"@);
    lemma_obj_get_append(p1, s2, "organization"@);
    lemma_obj_get_append(p2, s3, "organization"@);
    lemma_obj_get_append(p3, s4, "organization"@);
    lemma_obj_get_append(p4, s5, "organization"@);
    lemma_obj_get_append(p5, s6, "organization"@);
    lemma_obj_get_append(p6, s7, "organization"@);
    assert(jv_obj_get(f, "organization"@) == opt_str_val(v.organization));
    lemma_get_seg("organization"@, opt_str_val(v.organization), "position"@);
    lemma_get_seg("position"@, opt_str_val(v.position), "position"@);
    lemma_get_seg("url"@, opt_str_val(v.url), "position"@);
    lemma_get_seg("startDate"@, opt_str_val(v.start_date), "position"@);
    lemma_get_seg("endDate"@, opt_str_val(v.end_date), "position"@);
    lemma_get_seg("summary"@, opt_str_val(v.summary), "position"@);
    lemma_get_seg("highlights"@, list_val(v.highlights.map_values(jstr_f())), "position"@);
    lemma_obj_get_append(p1, s2, "position"@);
    lemma_obj_get_append(p2, s3, "position"@);
    lemma_obj_get_append(p3, s4, "position"@);
    lemma_obj_get_append(p4, s5, "position"@);
    lemma_obj_get_append(p5, s6, "position"@);
    lemma_obj_get_append(p6, s7, "position"@);
    assert(jv_obj_get(f, "position"@) == opt_str_val(v.position));
    lemma_get_seg("organization"@, opt_str_val(v.organization), "url"@);
    lemma_get_seg("position"@, opt_str_val(v.position), "url"@);
    lemma_get_seg("url"@, opt_str_val(v.url), "url"@);
    lemma_get_seg("startDate"@, opt_str_val(v.start_date), "url"@);
    lemma_get_seg("endDate"@, opt_str_val(v.end_date), "url"@);
    lemma_get_seg("summary"@, opt_str_val(v.summary), "url"@);
    lemma_get_seg("highlights"@, list_val(v.highlights.map_values(jstr_f())), "url"@);
    lemma_obj_get_append(p1, s2, "url"@);
    lemma_obj_get_append(p2, s3, "url"@);
    lemma_obj_get_append(p3, s4, "url"@);
    lemma_obj_get_append(p4, s5, "url"@);
    lemma_obj_get_append(p5, s6, "url"@);
    lemma_obj_get_append(p6, s7, "url"@);
    assert(jv_obj_get(f, "url"@) == opt_str_val(v.url));
    lemma_get_seg("organization"@, opt_str_val(v.organization), "startDate"@);
    lemma_get_seg("position"@, opt_str_val(v.position), "startDate"@);
    lemma_get_seg("url"@, opt_str_val(v.url), "startDate"@);
    lemma_get_seg("startDate"@, opt_str_val(v.start_date), "startDate"@);
    lemma_get_seg("endDate"@, opt_str_val(v.end_date), "startDate"@);
    lemma_get_seg("summary"@, opt_str_val(v.summary), "startDate"@);
    lemma_get_seg("highlights"@, list_val(v.highlights.map_values(jstr_f())), "startDate"@);
    lemma_obj_get_append(p1, s2, "startDate"@);
    lemma_obj_get_append(p2, s3, "startDate"@);
    lemma_obj_get_append(p3, s4, "startDate"@);
    lemma_obj_get_append(p4, s5, "startDate"@);
    lemma_obj_get_append(p5, s6, "startDate"@);
    lemma_obj_get_append(p6, s7, "startDate"@);
    assert(jv_obj_get(f, "startDate"@) == opt_str_val(v.start_date));
    lemma_get_seg("organization"@, opt_str_val(v.organization), "endDate"@);
    lemma_get_seg("position"@, opt_str_val(v.position), "endDate"@);
    lemma_get_seg("url"@, opt_str_val(v.url), "endDate"@);
    lemma_get_seg("startDate"@, opt_str_val(v.start_date), "endDate"@);
    lemma_get_seg("endDate"@, opt_str_val(v.end_date), "endDate"@);
    lemma_get_seg("summary"@, opt_str_val(v.summary), "endDate"@);
    lemma_get_seg("highlights"@, list_val(v.highlights.map_values(jstr_f())), "endDate"@);
    lemma_obj_get_append(p1, s2, "endDate"@);
    lemma_obj_get_append(p2, s3, "endDate"@);
    lemma_obj_get_append(p3, s4, "endDate"@);
    lemma_obj_get_append(p4, s5, "endDate"@);
    lemma_obj_get_append(p5, s6, "endDate"@);
    lemma_obj_get_append(p6, s7, "endDate"@);
    assert(jv_obj_get(f, "endDate"@) == opt_str_val(v.end_date));
    lemma_get_seg("organization"@, opt_str_val(v.organization), "summary"@);
    lemma_get_seg("position"@, opt_str_val(v.position), "summary"@);
    lemma_get_seg("url"@, opt_str_val(v.url), "summary"@);
    lemma_get_seg("startDate"@, opt_str_val(v.start_date), "summary"@);
    lemma_get_seg("endDate"@, opt_str_val(v.end_date), "summary"@);
    lemma_get_seg("summary"@, opt_str_val(v.summary), "summary"@);
    lemma_get_seg("highlights"@, list_val(v.highlights.map_values(jstr_f())), "summary"@);
    lemma_obj_get_append(p1, s2, "summary"@);
    lemma_obj_get_append(p2, s3, "summary"@);
    lemma_obj_get_append(p3, s4, "summary"@);
    lemma_obj_get_append(p4, s5, "summary"@);
    lemma_obj_get_append(p5, s6, "summary"@);
    lemma_obj_get_append(p6, s7, "summary"@);
    assert(jv_obj_get(f, "summary"@) == opt_str_val(v.summary));
    lemma_get_seg("organization"@, opt_str_val(v.organization), "highlights"@);
    lemma_get_seg("position"@, opt_str_val(v.position), "highlights"@);
    lemma_get_seg("url"@, opt_str_val(v.url), "highlights"@);
    lemma_get_seg("startDate"@, opt_str_val(v.start_date), "highlights"@);
    lemma_get_seg("endDate"@, opt_str_val(v.end_date), "highlights"@);
    lemma_get_seg("summary"@, opt_str_val(v.summary), "highlights"@);
    lemma_get_seg("highlights"@, list_val(v.highlights.map_values(jstr_f())), "highlights"@);
    lemma_obj_get_append(p1, s2, "highlights"@);
    lemma_obj_get_append(p2, s3, "highlights"@);
    lemma_obj_get_append(p3, s4, "highlights"@);
    lemma_obj_get_append(p4, s5, "highlights"@);
    lemma_obj_get_append(p5, s6, "highlights"@);
    lemma_obj_get_append(p6, s7, "highlights"@);
    assert(jv_obj_get(f, "highlights"@) == list_val(v.highlights.map_values(jstr_f())));
    assert(dec_opt_str(f, "organization"@) == Some(v.organization));
    assert(dec_opt_str(f, "position"@) == Some(v.position));
    assert(dec_opt_str(f, "url"@) == Some(v.url));
    assert(dec_opt_str(f, "startDate"@) == Some(v.start_date));
    assert(dec_opt_str(f, "endDate"@) == Some(v.end_date));
    assert(dec_opt_str(f, "summary"@) == Some(v.summary));
    assert forall|x: Seq<char>| #[trigger] dec_str_f()(jstr_f()(x)) == Some(x) by {
        assert(jstr_f()(x) == JsonV::Str(x));
        assert(dec_str_val(JsonV::Str(x)) == Some(x));
    }
    lemma_list_roundtrip(v.highlights, jstr_f(), dec_str_f());
    if v.highlights.len() == 0 {
        assert(v.highlights =~= Seq::<Seq<char>>::empty());
    }
    assert(dec_list(f, "highlights"@, dec_str_f()) == Some(v.highlights));
    assert(dec_volunteer_fields(f) is Some);
    assert(dec_volunteer_fields(f).unwrap() =~~= v);
}

/// Where the `name` member of an encoded [`ProjectView`] stands.
#[verifier::rlimit(80)]
proof fn lemma_project_member_name(v: ProjectView)
    ensures
        jv_obj_get(enc_project_fields(v), "name"@) == opt_str_val(v.name),
{
    reveal_strlit("description");
    assert("description"@.len() == 11);
    reveal_strlit("duties");
    assert("duties"@.len() == 6);
    reveal_strlit("endDate");
    assert("endDate"@.len() == 7);
    reveal_strlit("entity");
    assert("entity"@.len() == 6);
    reveal_strlit("features");
    assert("features"@.len() == 8);
    reveal_strlit("highlights");
    assert("highlights"@.len() == 10);
    reveal_strlit("keywords");
    assert("keywords"@.len() == 8);
    reveal_strlit("name");
    assert("name"@.len() == 4);
    reveal_strlit("profits");
    assert("profits"@.len() == 7);
    reveal_strlit("roles");
    assert("roles"@.len() == 5);
    reveal_strlit("startDate");
    assert("startDate"@.len() == 9);
    reveal_strlit("type");
    assert("type"@.len() == 4);
    reveal_strlit("url");
    assert("url"@.len() == 3);
    assert("name"@ != "description"@);
    assert("name"@ != "highlights"@);
    assert("name"@ != "duties"@);
    assert("name"@ != "profits"@);
    assert("name"@ != "features"@);
    assert("name"@ != "keywords"@);
    assert("name"@ != "startDate"@);
    assert("name"@ != "endDate"@);
    assert("name"@ != "url"@);
    assert("name"@ != "roles"@);
    assert("name"@ != "entity"@);
    assert("name"@[0] != "type"@[0]);
    assert("name"@ != "type"@);
    let s1 = seg("name"@, opt_str_val(v.name));
    let s2 = seg("description"@, opt_str_val(v.description));
    let s3 = seg("highlights"@, list_val(v.highlights.map_values(jstr_f())));
    let s4 = seg("duties"@, list_val(v.duties.map_values(jstr_f())));
    let s5 = seg("profits"@, list_val(v.profits.map_values(jstr_f())));
    let s6 = seg("features"@, list_val(v.features.map_values(enc_feature_f())));
    let s7 = seg("keywords"@, list_val(v.keywords.map_values(jstr_f())));
    let s8 = seg("startDate"@, opt_str_val(v.start_date));
    let s9 = seg("endDate"@, opt_str_val(v.end_date));
    let s10 = seg("url"@, opt_str_val(v.url));
    let s11 = seg("roles"@, list_val(v.roles.map_values(jstr_f())));
    let s12 = seg("entity"@, opt_str_val(v.entity));
    let s13 = seg("type"@, opt_str_val(v.type_));
    let p1 = s1;
    let p2 = p1 + s2;
    let p3 = p2 + s3;
    let p4 = p3 + s4;
    let p5 = p4 + s5;
    let p6 = p5 + s6;
    let p7 = p6 + s7;
    let p8 = p7 + s8;
    let p9 = p8 + s9;
    let p10 = p9 + s10;
    let p11 = p10 + s11;
    let p12 = p11 + s12;
    let p13 = p12 + s13;
    lemma_get_seg("name"@, opt_str_val(v.name), "name"@);
    lemma_get_seg("description"@, opt_str_val(v.description), "name"@);
    lemma_get_seg("highlights"@, list_val(v.highlights.map_values(jstr_f())), "name"@);
    lemma_get_seg("duties"@, list_val(v.duties.map_values(jstr_f())), "name"@);
    lemma_get_seg("profits"@, list_val(v.profits.map_values(jstr_f())), "name"@);
    lemma_get_seg("features"@, list_val(v.features.map_values(enc_feature_f())), "name"@);
    lemma_get_seg("keywords"@, list_val(v.keywords.map_values(jstr_f())), "name"@);
    lemma_get_seg("startDate"@, opt_str_val(v.start_date), "name"@);
    lemma_get_seg("endDate"@, opt_str_val(v.end_date), "name"@);
    lemma_get_seg("url"@, opt_str_val(v.url), "name"@);
    lemma_get_seg("roles"@, list_val(v.roles.map_values(jstr_f())), "name"@);
    lemma_get_seg("entity"@, opt_str_val(v.entity), "name"@);
    lemma_get_seg("type"@, opt_str_val(v.type_), "name"@);
    lemma_obj_get_append(p1, s2, "name"@);
    lemma_obj_get_append(p2, s3, "name"@);
    lemma_obj_get_append(p3, s4, "name"@);
    lemma_obj_get_append(p4, s5, "name"@);
    lemma_obj_get_append(p5, s6, "name"@);
    lemma_obj_get_append(p6, s7, "name"@);
    lemma_obj_get_append(p7, s8, "name"@);
    lemma_obj_get_append(p8, s9, "name"@);
    lemma_obj_get_append(p9, s10, "name"@);
    lemma_obj_get_append(p10, s11, "name"@);
    lemma_obj_get_append(p11, s12, "name"@);
    lemma_obj_get_append(p12, s13, "name"@);
    assert(enc_project_fields(v) == p13);
}

/// Where the `description` member of an encoded [`ProjectView`] stands.
#[verifier::rlimit(80)]
proof fn lemma_project_member_description(v: ProjectView)
    ensures
        jv_obj_get(enc_project_fields(v), "description"@) == opt_str_val(v.description),
{
    reveal_strlit("description");
    assert("description"@.len() == 11);
    reveal_strlit("duties");
    assert("duties"@.len() == 6);
    reveal_strlit("endDate");
    assert("endDate"@.len() == 7);
    reveal_strlit("entity");
    assert("entity"@.len() == 6);
    reveal_strlit("features");
    assert("features"@.len() == 8);
    reveal_strlit("highlights");
    assert("highlights"@.len() == 10);
    reveal_strlit("keywords");
    assert("keywords"@.len() == 8);
    reveal_strlit("name");
    assert("name"@.len() == 4);
    reveal_strlit("profits");
    assert("profits"@.len() == 7);
    reveal_strlit("roles");
    assert("roles"@.len() == 5);
    reveal_strlit("startDate");
    assert("startDate"@.len() == 9);
    reveal_strlit("type");
    assert("type"@.len() == 4);
    reveal_strlit("url");
    assert("url"@.len() == 3);
    assert("description"@ != "name"@);
    assert("description"@ != "highlights"@);
    assert("description"@ != "duties"@);
    assert("description"@ != "profits"@);
    assert("description"@ != "features"@);
    assert("description"@ != "keywords"@);
    assert("description"@ != "startDate"@);
    assert("description"@ != "endDate"@);
    assert("description"@ != "url"@);
    assert("description"@ != "roles"@);
    assert("description"@ != "entity"@);
    assert("description"@ != "type"@);
    let s1 = seg("name"@, opt_str_val(v.name));
    let s2 = seg("description"@, opt_str_val(v.description));
    let s3 = seg("highlights"@, list_val(v.highlights.map_values(jstr_f())));
    let s4 = seg("duties"@, list_val(v.duties.map_values(jstr_f())));
    let s5 = seg("profits"@, list_val(v.profits.map_values(jstr_f())));
    let s6 = seg("features"@, list_val(v.features.map_values(enc_feature_f())));
    let s7 = seg("keywords"@, list_val(v.keywords.map_values(jstr_f())));
    let s8 = seg("startDate"@, opt_str_val(v.start_date));
    let s9 = seg("endDate"@, opt_str_val(v.end_date));
    let s10 = seg("url"@, opt_str_val(v.url));
    let s11 = seg("roles"@, list_val(v.roles.map_values(jstr_f())));
    let s12 = seg("entity"@, opt_str_val(v.entity));
    let s13 = seg("type"@, opt_str_val(v.type_));
    let p1 = s1;
    let p2 = p1 + s2;
    let p3 = p2 + s3;
    let p4 = p3 + s4;
    let p5 = p4 + s5;
    let p6 = p5 + s6;
    let p7 = p6 + s7;
    let p8 = p7 + s8;
    let p9 = p8 + s9;
    let p10 = p9 + s10;
    let p11 = p10 + s11;
    let p12 = p11 + s12;
    let p13 = p12 + s13;
    lemma_get_seg("name"@, opt_str_val(v.name), "description"@);
    lemma_get_seg("description"@, opt_str_val(v.description), "description"@);
    lemma_get_seg("highlights"@, list_val(v.highlights.map_values(jstr_f())), "description"@);
    lemma_get_seg("duties"@, list_val(v.duties.map_values(jstr_f())), "description"@);
    lemma_get_seg("profits"@, list_val(v.profits.map_values(jstr_f())), "description"@);
    lemma_get_seg("features"@, list_val(v.features.map_values(enc_feature_f())), "description"@);
    lemma_get_seg("keywords"@, list_val(v.keywords.map_values(jstr_f())), "description"@);
    lemma_get_seg("startDate"@, opt_str_val(v.start_date), "description"@);
    lemma_get_seg("endDate"@, opt_str_val(v.end_date), "description"@);
    lemma_get_seg("url"@, opt_str_val(v.url), "description"@);
    lemma_get_seg("roles"@, list_val(v.roles.map_values(jstr_f())), "description"@);
    lemma_get_seg("entity"@, opt_str_val(v.entity), "description"@);
    lemma_get_seg("type"@, opt_str_val(v.type_), "description"@);
    lemma_obj_get_append(p1, s2, "description"@);
    lemma_obj_get_append(p2, s3, "description"@);
    lemma_obj_get_append(p3, s4, "description"@);
    lemma_obj_get_append(p4, s5, "description"@);
    lemma_obj_get_append(p5, s6, "description"@);
    lemma_obj_get_append(p6, s7, "description"@);
    lemma_obj_get_append(p7, s8, "description"@);
    lemma_obj_get_append(p8, s9, "description"@);
    lemma_obj_get_append(p9, s10, "description"@);
    lemma_obj_get_append(p10, s11, "description"@);
    lemma_obj_get_append(p11, s12, "description"@);
    lemma_obj_get_append(p12, s13, "description"@);
    assert(enc_project_fields(v) == p13);
}

/// Where the `highlights` member of an encoded [`ProjectView`] stands.
#[verifier::rlimit(80)]
proof fn lemma_project_member_highlights(v: ProjectView)
    ensures
        jv_obj_get(enc_project_fields(v), "highlights"@) == list_val(v.highlights.map_values(jstr_f())),
{
    reveal_strlit("description");
    assert("description"@.len() == 11);
    reveal_strlit("duties");
    assert("duties"@.len() == 6);
    reveal_strlit("endDate");
    assert("endDate"@.len() == 7);
    reveal_strlit("entity");
    assert("entity"@.len() == 6);
    reveal_strlit("features");
    assert("features"@.len() == 8);
    reveal_strlit("highlights");
    assert("highlights"@.len() == 10);
    reveal_strlit("keywords");
    assert("keywords"@.len() == 8);
    reveal_strlit("name");
    assert("name"@.len() == 4);
    reveal_strlit("profits");
    assert("profits"@.len() == 7);
    reveal_strlit("roles");
    assert("roles"@.len() == 5);
    reveal_strlit("startDate");
    assert("startDate"@.len() == 9);
    reveal_strlit("type");
    assert("type"@.len() == 4);
    reveal_strlit("url");
    assert("url"@.len() == 3);
    assert("highlights"@ != "name"@);
    assert("highlights"@ != "description"@);
    assert("highlights"@ != "duties"@);
    assert("highlights"@ != "profits"@);
    assert("highlights"@ != "features"@);
    assert("highlights"@ != "keywords"@);
    assert("highlights"@ != "startDate"@);
    assert("highlights"@ != "endDate"@);
    assert("highlights"@ != "url"@);
    assert("highlights"@ != "roles"@);
    assert("highlights"@ != "entity"@);
    assert("highlights"@ != "type"@);
    let s1 = seg("name"@, opt_str_val(v.name));
    let s2 = seg("description"@, opt_str_val(v.description));
    let s3 = seg("highlights"@, list_val(v.highlights.map_values(jstr_f())));
    let s4 = seg("duties"@, list_val(v.duties.map_values(jstr_f())));
    let s5 = seg("profits"@, list_val(v.profits.map_values(jstr_f())));
    let s6 = seg("features"@, list_val(v.features.map_values(enc_feature_f())));
    let s7 = seg("keywords"@, list_val(v.keywords.map_values(jstr_f())));
    let s8 = seg("startDate"@, opt_str_val(v.start_date));
    let s9 = seg("endDate"@, opt_str_val(v.end_date));
    let s10 = seg("url"@, opt_str_val(v.url));
    let s11 = seg("roles"@, list_val(v.roles.map_values(jstr_f())));
    let s12 = seg("entity"@, opt_str_val(v.entity));
    let s13 = seg("type"@, opt_str_val(v.type_));
    let p1 = s1;
    let p2 = p1 + s2;
    let p3 = p2 + s3;
    let p4 = p3 + s4;
    let p5 = p4 + s5;
    let p6 = p5 + s6;
    let p7 = p6 + s7;
    let p8 = p7 + s8;
    let p9 = p8 + s9;
    let p10 = p9 + s10;
    let p11 = p10 + s11;
    let p12 = p11 + s12;
    let p13 = p12 + s13;
    lemma_get_seg("name"@, opt_str_val(v.name), "highlights"@);
    lemma_get_seg("description"@, opt_str_val(v.description), "highlights"@);
    lemma_get_seg("highlights"@, list_val(v.highlights.map_values(jstr_f())), "highlights"@);
    lemma_get_seg("duties"@, list_val(v.duties.map_values(jstr_f())), "highlights"@);
    lemma_get_seg("profits"@, list_val(v.profits.map_values(jstr_f())), "highlights"@);
    lemma_get_seg("features"@, list_val(v.features.map_values(enc_feature_f())), "highlights"@);
    lemma_get_seg("keywords"@, list_val(v.keywords.map_values(jstr_f())), "highlights"@);
    lemma_get_seg("startDate"@, opt_str_val(v.start_date), "highlights"@);
    lemma_get_seg("endDate"@, opt_str_val(v.end_date), "highlights"@);
    lemma_get_seg("url"@, opt_str_val(v.url), "highlights"@);
    lemma_get_seg("roles"@, list_val(v.roles.map_values(jstr_f())), "highlights"@);
    lemma_get_seg("entity"@, opt_str_val(v.entity), "highlights"@);
    lemma_get_seg("type"@, opt_str_val(v.type_), "highlights"@);
    lemma_obj_get_append(p1, s2, "highlights"@);
    lemma_obj_get_append(p2, s3, "highlights"@);
    lemma_obj_get_append(p3, s4, "highlights"@);
    lemma_obj_get_append(p4, s5, "highlights"@);
    lemma_obj_get_append(p5, s6, "highlights"@);
    lemma_obj_get_append(p6, s7, "highlights"@);
    lemma_obj_get_append(p7, s8, "highlights"@);
    lemma_obj_get_append(p8, s9, "highlights"@);
    lemma_obj_get_append(p9, s10, "highlights"@);
    lemma_obj_get_append(p10, s11, "highlights"@);
    lemma_obj_get_append(p11, s12, "highlights"@);
    lemma_obj_get_append(p12, s13, "highlights"@);
    assert(enc_project_fields(v) == p13);
}

/// Where the `duties` member of an encoded [`ProjectView`] stands.
#[verifier::rlimit(80)]
proof fn lemma_project_member_duties(v: ProjectView)
    ensures
        jv_obj_get(enc_project_fields(v), "duties"@) == list_val(v.duties.map_values(jstr_f())),
{
    reveal_strlit("description");
    assert("description"@.len() == 11);
    reveal_strlit("duties");
    assert("duties"@.len() == 6);
    reveal_strlit("endDate");
    assert("endDate"@.len() == 7);
    reveal_strlit("entity");
    assert("entity"@.len() == 6);
    reveal_strlit("features");
    assert("features"@.len() == 8);
    reveal_strlit("highlights");
    assert("highlights"@.len() == 10);
    reveal_strlit("keywords");
    assert("keywords"@.len() == 8);
    reveal_strlit("name");
    assert("name"@.len() == 4);
    reveal_strlit("profits");
    assert("profits"@.len() == 7);
    reveal_strlit("roles");
    assert("roles"@.len() == 5);
    reveal_strlit("startDate");
    assert("startDate"@.len() == 9);
    reveal_strlit("type");
    assert("type"@.len() == 4);
    reveal_strlit("url");
    assert("url"@.len() == 3);
    assert("duties"@ != "name"@);
    assert("duties"@ != "description"@);
    assert("duties"@ != "highlights"@);
    assert("duties"@ != "profits"@);
    assert("duties"@ != "features"@);
    assert("duties"@ != "keywords"@);
    assert("duties"@ != "startDate"@);
    assert("duties"@ != "endDate"@);
    assert("duties"@ != "url"@);
    assert("duties"@ != "roles"@);
    assert("duties"@[0] != "entity"@[0]);
    assert("duties"@ != "entity"@);
    assert("duties"@ != "type"@);
    let s1 = seg("name"@, opt_str_val(v.name));
    let s2 = seg("description"@, opt_str_val(v.description));
    let s3 = seg("highlights"@, list_val(v.highlights.map_values(jstr_f())));
    let s4 = seg("duties"@, list_val(v.duties.map_values(jstr_f())));
    let s5 = seg("profits"@, list_val(v.profits.map_values(jstr_f())));
    let s6 = seg("features"@, list_val(v.features.map_values(enc_feature_f())));
    let s7 = seg("keywords"@, list_val(v.keywords.map_values(jstr_f())));
    let s8 = seg("startDate"@, opt_str_val(v.start_date));
    let s9 = seg("endDate"@, opt_str_val(v.end_date));
    let s10 = seg("url"@, opt_str_val(v.url));
    let s11 = seg("roles"@, list_val(v.roles.map_values(jstr_f())));
    let s12 = seg("entity"@, opt_str_val(v.entity));
    let s13 = seg("type"@, opt_str_val(v.type_));
    let p1 = s1;
    let p2 = p1 + s2;
    let p3 = p2 + s3;
    let p4 = p3 + s4;
    let p5 = p4 + s5;
    let p6 = p5 + s6;
    let p7 = p6 + s7;
    let p8 = p7 + s8;
    let p9 = p8 + s9;
    let p10 = p9 + s10;
    let p11 = p10 + s11;
    let p12 = p11 + s12;
    let p13 = p12 + s13;
    lemma_get_seg("name"@, opt_str_val(v.name), "duties"@);
    lemma_get_seg("description"@, opt_str_val(v.description), "duties"@);
    lemma_get_seg("highlights"@, list_val(v.highlights.map_values(jstr_f())), "duties"@);
    lemma_get_seg("duties"@, list_val(v.duties.map_values(jstr_f())), "duties"@);
    lemma_get_seg("profits"@, list_val(v.profits.map_values(jstr_f())), "duties"@);
    lemma_get_seg("features"@, list_val(v.features.map_values(enc_feature_f())), "duties"@);
    lemma_get_seg("keywords"@, list_val(v.keywords.map_values(jstr_f())), "duties"@);
    lemma_get_seg("startDate"@, opt_str_val(v.start_date), "duties"@);
    lemma_get_seg("endDate"@, opt_str_val(v.end_date), "duties"@);
    lemma_get_seg("url"@, opt_str_val(v.url), "duties"@);
    lemma_get_seg("roles"@, list_val(v.roles.map_values(jstr_f())), "duties"@);
    lemma_get_seg("entity"@, opt_str_val(v.entity), "duties"@);
    lemma_get_seg("type"@, opt_str_val(v.type_), "duties"@);
    lemma_obj_get_append(p1, s2, "duties"@);
    lemma_obj_get_append(p2, s3, "duties"@);
    lemma_obj_get_append(p3, s4, "duties"@);
    lemma_obj_get_append(p4, s5, "duties"@);
    lemma_obj_get_append(p5, s6, "duties"@);
    lemma_obj_get_append(p6, s7, "duties"@);
    lemma_obj_get_append(p7, s8, "duties"@);
    lemma_obj_get_append(p8, s9, "duties"@);
    lemma_obj_get_append(p9, s10, "duties"@);
    lemma_obj_get_append(p10, s11, "duties"@);
    lemma_obj_get_append(p11, s12, "duties"@);
    lemma_obj_get_append(p12, s13, "duties"@);
    assert(enc_project_fields(v) == p13);
}

/// Where the `profits` member of an encoded [`ProjectView`] stands.
#[verifier::rlimit(80)]
proof fn lemma_project_member_profits(v: ProjectView)
    ensures
        jv_obj_get(enc_project_fields(v), "profits"@) == list_val(v.profits.map_values(jstr_f())),
{
    reveal_strlit("description");
    assert("description"@.len() == 11);
    reveal_strlit("duties");
    assert("duties"@.len() == 6);
    reveal_strlit("endDate");
    assert("endDate"@.len() == 7);
    reveal_strlit("entity");
    assert("entity"@.len() == 6);
    reveal_strlit("features");
    assert("features"@.len() == 8);
    reveal_strlit("highlights");
    assert("highlights"@.len() == 10);
    reveal_strlit("keywords");
    assert("keywords"@.len() == 8);
    reveal_strlit("name");
    assert("name"@.len() == 4);
    reveal_strlit("profits");
    assert("profits"@.len() == 7);
    reveal_strlit("roles");
    assert("roles"@.len() == 5);
    reveal_strlit("startDate");
    assert("startDate"@.len() == 9);
    reveal_strlit("type");
    assert("type"@.len() == 4);
    reveal_strlit("url");
    assert("url"@.len() == 3);
    assert("profits"@ != "name"@);
    assert("profits"@ != "description"@);
    assert("profits"@ != "highlights"@);
    assert("profits"@ != "duties"@);
    assert("profits"@ != "features"@);
    assert("profits"@ != "keywords"@);
    assert("profits"@ != "startDate"@);
    assert("profits"@[0] != "endDate"@[0]);
    assert("profits"@ != "endDate"@);
    assert("profits"@ != "url"@);
    assert("profits"@ != "roles"@);
    assert("profits"@ != "entity"@);
    assert("profits"@ != "type"@);
    let s1 = seg("name"@, opt_str_val(v.name));
    let s2 = seg("description"@, opt_str_val(v.description));
    let s3 = seg("highlights"@, list_val(v.highlights.map_values(jstr_f())));
    let s4 = seg("duties"@, list_val(v.duties.map_values(jstr_f())));
    let s5 = seg("profits"@, list_val(v.profits.map_values(jstr_f())));
    let s6 = seg("features"@, list_val(v.features.map_values(enc_feature_f())));
    let s7 = seg("keywords"@, list_val(v.keywords.map_values(jstr_f())));
    let s8 = seg("startDate"@, opt_str_val(v.start_date));
    let s9 = seg("endDate"@, opt_str_val(v.end_date));
    let s10 = seg("url"@, opt_str_val(v.url));
    let s11 = seg("roles"@, list_val(v.roles.map_values(jstr_f())));
    let s12 = seg("entity"@, opt_str_val(v.entity));
    let s13 = seg("type"@, opt_str_val(v.type_));
    let p1 = s1;
    let p2 = p1 + s2;
    let p3 = p2 + s3;
    let p4 = p3 + s4;
    let p5 = p4 + s5;
    let p6 = p5 + s6;
    let p7 = p6 + s7;
    let p8 = p7 + s8;
    let p9 = p8 + s9;
    let p10 = p9 + s10;
    let p11 = p10 + s11;
    let p12 = p11 + s12;
    let p13 = p12 + s13;
    lemma_get_seg("name"@, opt_str_val(v.name), "profits"@);
    lemma_get_seg("description"@, opt_str_val(v.description), "profits"@);
    lemma_get_seg("highlights"@, list_val(v.highlights.map_values(jstr_f())), "profits"@);
    lemma_get_seg("duties"@, list_val(v.duties.map_values(jstr_f())), "profits"@);
    lemma_get_seg("profits"@, list_val(v.profits.map_values(jstr_f())), "profits"@);
    lemma_get_seg("features"@, list_val(v.features.map_values(enc_feature_f())), "profits"@);
    lemma_get_seg("keywords"@, list_val(v.keywords.map_values(jstr_f())), "profits"@);
    lemma_get_seg("startDate"@, opt_str_val(v.start_date), "profits"@);
    lemma_get_seg("endDate"@, opt_str_val(v.end_date), "profits"@);
    lemma_get_seg("url"@, opt_str_val(v.url), "profits"@);
    lemma_get_seg("roles"@, list_val(v.roles.map_values(jstr_f())), "profits"@);
    lemma_get_seg("entity"@, opt_str_val(v.entity), "profits"@);
    lemma_get_seg("type"@, opt_str_val(v.type_), "profits"@);
    lemma_obj_get_append(p1, s2, "profits"@);
    lemma_obj_get_append(p2, s3, "profits"@);
    lemma_obj_get_append(p3, s4, "profits"@);
    lemma_obj_get_append(p4, s5, "profits"@);
    lemma_obj_get_append(p5, s6, "profits"@);
    lemma_obj_get_append(p6, s7, "profits"@);
    lemma_obj_get_append(p7, s8, "profits"@);
    lemma_obj_get_append(p8, s9, "profits"@);
    lemma_obj_get_append(p9, s10, "profits"@);
    lemma_obj_get_append(p10, s11, "profits"@);
    lemma_obj_get_append(p11, s12, "profits"@);
    lemma_obj_get_append(p12, s13, "profits"@);
    assert(enc_project_fields(v) == p13);
}

/// Where the `features` member of an encoded [`ProjectView`] stands.
#[verifier::rlimit(80)]
proof fn lemma_project_member_features(v: ProjectView)
    ensures
        jv_obj_get(enc_project_fields(v), "features"@) == list_val(v.features.map_values(enc_feature_f())),
{
    reveal_strlit("description");
    assert("description"@.len() == 11);
    reveal_strlit("duties");
    assert("duties"@.len() == 6);
    reveal_strlit("endDate");
    assert("endDate"@.len() == 7);
    reveal_strlit("entity");
    assert("entity"@.len() == 6);
    reveal_strlit("features");
    assert("features"@.len() == 8);
    reveal_strlit("highlights");
    assert("highlights"@.len() == 10);
    reveal_strlit("keywords");
    assert("keywords"@.len() == 8);
    reveal_strlit("name");
    assert("name"@.len() == 4);
    reveal_strlit("profits");
    assert("profits"@.len() == 7);
    reveal_strlit("roles");
    assert("roles"@.len() == 5);
    reveal_strlit("startDate");
    assert("startDate"@.len() == 9);
    reveal_strlit("type");
    assert("type"@.len() == 4);
    reveal_strlit("url");
    assert("url"@.len() == 3);
    assert("features"@ != "name"@);
    assert("features"@ != "description"@);
    assert("features"@ != "highlights"@);
    assert("features"@ != "duties"@);
    assert("features"@ != "profits"@);
    assert("features"@[0] != "keywords"@[0]);
    assert("features"@ != "keywords"@);
    assert("features"@ != "startDate"@);
    assert("features"@ != "endDate"@);
    assert("features"@ != "url"@);
    assert("features"@ != "roles"@);
    assert("features"@ != "entity"@);
    assert("features"@ != "type"@);
    let s1 = seg("name"@, opt_str_val(v.name));
    let s2 = seg("description"@, opt_str_val(v.description));
    let s3 = seg("highlights"@, list_val(v.highlights.map_values(jstr_f())));
    let s4 = seg("duties"@, list_val(v.duties.map_values(jstr_f())));
    let s5 = seg("profits"@, list_val(v.profits.map_values(jstr_f())));
    let s6 = seg("features"@, list_val(v.features.map_values(enc_feature_f())));
    let s7 = seg("keywords"@, list_val(v.keywords.map_values(jstr_f())));
    let s8 = seg("startDate"@, opt_str_val(v.start_date));
    let s9 = seg("endDate"@, opt_str_val(v.end_date));
    let s10 = seg("url"@, opt_str_val(v.url));
    let s11 = seg("roles"@, list_val(v.roles.map_values(jstr_f())));
    let s12 = seg("entity"@, opt_str_val(v.entity));
    let s13 = seg("type"@, opt_str_val(v.type_));
    let p1 = s1;
    let p2 = p1 + s2;
    let p3 = p2 + s3;
    let p4 = p3 + s4;
    let p5 = p4 + s5;
    let p6 = p5 + s6;
    let p7 = p6 + s7;
    let p8 = p7 + s8;
    let p9 = p8 + s9;
    let p10 = p9 + s10;
    let p11 = p10 + s11;
    let p12 = p11 + s12;
    let p13 = p12 + s13;
    lemma_get_seg("name"@, opt_str_val(v.name), "features"@);
    lemma_get_seg("description"@, opt_str_val(v.description), "features"@);
    lemma_get_seg("highlights"@, list_val(v.highlights.map_values(jstr_f())), "features"@);
    lemma_get_seg("duties"@, list_val(v.duties.map_values(jstr_f())), "features"@);
    lemma_get_seg("profits"@, list_val(v.profits.map_values(jstr_f())), "features"@);
    lemma_get_seg("features"@, list_val(v.features.map_values(enc_feature_f())), "features"@);
    lemma_get_seg("keywords"@, list_val(v.keywords.map_values(jstr_f())), "features"@);
    lemma_get_seg("startDate"@, opt_str_val(v.start_date), "features"@);
    lemma_get_seg("endDate"@, opt_str_val(v.end_date), "features"@);
    lemma_get_seg("url"@, opt_str_val(v.url), "features"@);
    lemma_get_seg("roles"@, list_val(v.roles.map_values(jstr_f())), "features"@);
    lemma_get_seg("entity"@, opt_str_val(v.entity), "features"@);
    lemma_get_seg("type"@, opt_str_val(v.type_), "features"@);
    lemma_obj_get_append(p1, s2, "features"@);
    lemma_obj_get_append(p2, s3, "features"@);
    lemma_obj_get_append(p3, s4, "features"@);
    lemma_obj_get_append(p4, s5, "features"@);
    lemma_obj_get_append(p5, s6, "features"@);
    lemma_obj_get_append(p6, s7, "features"@);
    lemma_obj_get_append(p7, s8, "features"@);
    lemma_obj_get_append(p8, s9, "features"@);
    lemma_obj_get_append(p9, s10, "features"@);
    lemma_obj_get_append(p10, s11, "features"@);
    lemma_obj_get_append(p11, s12, "features"@);
    lemma_obj_get_append(p12, s13, "features"@);
    assert(enc_project_fields(v) == p13);
}

/// Where the `keywords` member of an encoded [`ProjectView`] stands.
#[verifier::rlimit(80)]
proof fn lemma_project_member_keywords(v: ProjectView)
    ensures
        jv_obj_get(enc_project_fields(v), "keywords"@) == list_val(v.keywords.map_values(jstr_f())),
{
    reveal_strlit("description");
    assert("description"@.len() == 11);
    reveal_strlit("duties");
    assert("duties"@.len() == 6);
    reveal_strlit("endDate");
    assert("endDate"@.len() == 7);
    reveal_strlit("entity");
    assert("entity"@.len() == 6);
    reveal_strlit("features");
    assert("features"@.len() == 8);
    reveal_strlit("highlights");
    assert("highlights"@.len() == 10);
    reveal_strlit("keywords");
    assert("keywords"@.len() == 8);
    reveal_strlit("name");
    assert("name"@.len() == 4);
    reveal_strlit("profits");
    assert("profits"@.len() == 7);
    reveal_strlit("roles");
    assert("roles"@.len() == 5);
    reveal_strlit("startDate");
    assert("startDate"@.len() == 9);
    reveal_strlit("type");
    assert("type"@.len() == 4);
    reveal_strlit("url");
    assert("url"@.len() == 3);
    assert("keywords"@ != "name"@);
    assert("keywords"@ != "description"@);
    assert("keywords"@ != "highlights"@);
    assert("keywords"@ != "duties"@);
    assert("keywords"@ != "profits"@);
    assert("keywords"@[0] != "features"@[0]);
    assert("keywords"@ != "features"@);
    assert("keywords"@ != "startDate"@);
    assert("keywords"@ != "endDate"@);
    assert("keywords"@ != "url"@);
    assert("keywords"@ != "roles"@);
    assert("keywords"@ != "entity"@);
    assert("keywords"@ != "type"@);
    let s1 = seg("name"@, opt_str_val(v.name));
    let s2 = seg("description"@, opt_str_val(v.description));
    let s3 = seg("highlights"@, list_val(v.highlights.map_values(jstr_f())));
    let s4 = seg("duties"@, list_val(v.duties.map_values(jstr_f())));
    let s5 = seg("profits"@, list_val(v.profits.map_values(jstr_f())));
    let s6 = seg("features"@, list_val(v.features.map_values(enc_feature_f())));
    let s7 = seg("keywords"@, list_val(v.keywords.map_values(jstr_f())));
    let s8 = seg("startDate"@, opt_str_val(v.start_date));
    let s9 = seg("endDate"@, opt_str_val(v.end_date));
    let s10 = seg("url"@, opt_str_val(v.url));
    let s11 = seg("roles"@, list_val(v.roles.map_values(jstr_f())));
    let s12 = seg("entity"@, opt_str_val(v.entity));
    let s13 = seg("type"@, opt_str_val(v.type_));
    let p1 = s1;
    let p2 = p1 + s2;
    let p3 = p2 + s3;
    let p4 = p3 + s4;
    let p5 = p4 + s5;
    let p6 = p5 + s6;
    let p7 = p6 + s7;
    let p8 = p7 + s8;
    let p9 = p8 + s9;
    let p10 = p9 + s10;
    let p11 = p10 + s11;
    let p12 = p11 + s12;
    let p13 = p12 + s13;
    lemma_get_seg("name"@, opt_str_val(v.name), "keywords"@);
    lemma_get_seg("description"@, opt_str_val(v.description), "keywords"@);
    lemma_get_seg("highlights"@, list_val(v.highlights.map_values(jstr_f())), "keywords"@);
    lemma_get_seg("duties"@, list_val(v.duties.map_values(jstr_f())), "keywords"@);
    lemma_get_seg("profits"@, list_val(v.profits.map_values(jstr_f())), "keywords"@);
    lemma_get_seg("features"@, list_val(v.features.map_values(enc_feature_f())), "keywords"@);
    lemma_get_seg("keywords"@, list_val(v.keywords.map_values(jstr_f())), "keywords"@);
    lemma_get_seg("startDate"@, opt_str_val(v.start_date), "keywords"@);
    lemma_get_seg("endDate"@, opt_str_val(v.end_date), "keywords"@);
    lemma_get_seg("url"@, opt_str_val(v.url), "keywords"@);
    lemma_get_seg("roles"@, list_val(v.roles.map_values(jstr_f())), "keywords"@);
    lemma_get_seg("entity"@, opt_str_val(v.entity), "keywords"@);
    lemma_get_seg("type"@, opt_str_val(v.type_), "keywords"@);
    lemma_obj_get_append(p1, s2, "keywords"@);
    lemma_obj_get_append(p2, s3, "keywords"@);
    lemma_obj_get_append(p3, s4, "keywords"@);
    lemma_obj_get_append(p4, s5, "keywords"@);
    lemma_obj_get_append(p5, s6, "keywords"@);
    lemma_obj_get_append(p6, s7, "keywords"@);
    lemma_obj_get_append(p7, s8, "keywords"@);
    lemma_obj_get_append(p8, s9, "keywords"@);
    lemma_obj_get_append(p9, s10, "keywords"@);
    lemma_obj_get_append(p10, s11, "keywords"@);
    lemma_obj_get_append(p11, s12, "keywords"@);
    lemma_obj_get_append(p12, s13, "keywords"@);
    assert(enc_project_fields(v) == p13);
}

/// Where the `startDate` member of an encoded [`ProjectView`] stands.
#[verifier::rlimit(80)]
proof fn lemma_project_member_start_date(v: ProjectView)
    ensures
        jv_obj_get(enc_project_fields(v), "startDate"@) == opt_str_val(v.start_date),
{
    reveal_strlit("description");
    assert("description"@.len() == 11);
    reveal_strlit("duties");
    assert("duties"@.len() == 6);
    reveal_strlit("endDate");
    assert("endDate"@.len() == 7);
    reveal_strlit("entity");
    assert("entity"@.len() == 6);
    reveal_strlit("features");
    assert("features"@.len() == 8);
    reveal_strlit("highlights");
    assert("highlights"@.len() == 10);
    reveal_strlit("keywords");
    assert("keywords"@.len() == 8);
    reveal_strlit("name");
    assert("name"@.len() == 4);
    reveal_strlit("profits");
    assert("profits"@.len() == 7);
    reveal_strlit("roles");
    assert("roles"@.len() == 5);
    reveal_strlit("startDate");
    assert("startDate"@.len() == 9);
    reveal_strlit("type");
    assert("type"@.len() == 4);
    reveal_strlit("url");
    assert("url"@.len() == 3);
    assert("startDate"@ != "name"@);
    assert("startDate"@ != "description"@);
    assert("startDate"@ != "highlights"@);
    assert("startDate"@ != "duties"@);
    assert("startDate"@ != "profits"@);
    assert("startDate"@ != "features"@);
    assert("startDate"@ != "keywords"@);
    assert("startDate"@ != "endDate"@);
    assert("startDate"@ != "url"@);
    assert("startDate"@ != "roles"@);
    assert("startDate"@ != "entity"@);
    assert("startDate"@ != "type"@);
    let s1 = seg("name"@, opt_str_val(v.name));
    let s2 = seg("description"@, opt_str_val(v.description));
    let s3 = seg("highlights"@, list_val(v.highlights.map_values(jstr_f())));
    let s4 = seg("duties"@, list_val(v.duties.map_values(jstr_f())));
    let s5 = seg("profits"@, list_val(v.profits.map_values(jstr_f())));
    let s6 = seg("features"@, list_val(v.features.map_values(enc_feature_f())));
    let s7 = seg("keywords"@, list_val(v.keywords.map_values(jstr_f())));
    let s8 = seg("startDate"@, opt_str_val(v.start_date));
    let s9 = seg("endDate"@, opt_str_val(v.end_date));
    let s10 = seg("url"@, opt_str_val(v.url));
    let s11 = seg("roles"@, list_val(v.roles.map_values(jstr_f())));
    let s12 = seg("entity"@, opt_str_val(v.entity));
    let s13 = seg("type"@, opt_str_val(v.type_));
    let p1 = s1;
    let p2 = p1 + s2;
    let p3 = p2 + s3;
    let p4 = p3 + s4;
    let p5 = p4 + s5;
    let p6 = p5 + s6;
    let p7 = p6 + s7;
    let p8 = p7 + s8;
    let p9 = p8 + s9;
    let p10 = p9 + s10;
    let p11 = p10 + s11;
    let p12 = p11 + s12;
    let p13 = p12 + s13;
    lemma_get_seg("name"@, opt_str_val(v.name), "startDate"@);
    lemma_get_seg("description"@, opt_str_val(v.description), "startDate"@);
    lemma_get_seg("highlights"@, list_val(v.highlights.map_values(jstr_f())), "startDate"@);
    lemma_get_seg("duties"@, list_val(v.duties.map_values(jstr_f())), "startDate"@);
    lemma_get_seg("profits"@, list_val(v.profits.map_values(jstr_f())), "startDate"@);
    lemma_get_seg("features"@, list_val(v.features.map_values(enc_feature_f())), "startDate"@);
    lemma_get_seg("keywords"@, list_val(v.keywords.map_values(jstr_f())), "startDate"@);
    lemma_get_seg("startDate"@, opt_str_val(v.start_date), "startDate"@);
    lemma_get_seg("endDate"@, opt_str_val(v.end_date), "startDate"@);
    lemma_get_seg("url"@, opt_str_val(v.url), "startDate"@);
    lemma_get_seg("roles"@, list_val(v.roles.map_values(jstr_f())), "startDate"@);
    lemma_get_seg("entity"@, opt_str_val(v.entity), "startDate"@);
    lemma_get_seg("type"@, opt_str_val(v.type_), "startDate"@);
    lemma_obj_get_append(p1, s2, "startDate"@);
    lemma_obj_get_append(p2, s3, "startDate"@);
    lemma_obj_get_append(p3, s4, "startDate"@);
    lemma_obj_get_append(p4, s5, "startDate"@);
    lemma_obj_get_append(p5, s6, "startDate"@);
    lemma_obj_get_append(p6, s7, "startDate"@);
    lemma_obj_get_append(p7, s8, "startDate"@);
    lemma_obj_get_append(p8, s9, "startDate"@);
    lemma_obj_get_append(p9, s10, "startDate"@);
    lemma_obj_get_append(p10, s11, "startDate"@);
    lemma_obj_get_append(p11, s12, "startDate"@);
    lemma_obj_get_append(p12, s13, "startDate"@);
    assert(enc_project_fields(v) == p13);
}

/// Where the `endDate` member of an encoded [`ProjectView`] stands.
#[verifier::rlimit(80)]
proof fn lemma_project_member_end_date(v: ProjectView)
    ensures
        jv_obj_get(enc_project_fields(v), "endDate"@) == opt_str_val(v.end_date),
{
    reveal_strlit("description");
    assert("description"@.len() == 11);
    reveal_strlit("duties");
    assert("duties"@.len() == 6);
    reveal_strlit("endDate");
    assert("endDate"@.len() == 7);
    reveal_strlit("entity");
    assert("entity"@.len() == 6);
    reveal_strlit("features");
    assert("features"@.len() == 8);
    reveal_strlit("highlights");
    assert("highlights"@.len() == 10);
    reveal_strlit("keywords");
    assert("keywords"@.len() == 8);
    reveal_strlit("name");
    assert("name"@.len() == 4);
    reveal_strlit("profits");
    assert("profits"@.len() == 7);
    reveal_strlit("roles");
    assert("roles"@.len() == 5);
    reveal_strlit("startDate");
    assert("startDate"@.len() == 9);
    reveal_strlit("type");
    assert("type"@.len() == 4);
    reveal_strlit("url");
    assert("url"@.len() == 3);
    assert("endDate"@ != "name"@);
    assert("endDate"@ != "description"@);
    assert("endDate"@ != "highlights"@);
    assert("endDate"@ != "duties"@);
    assert("endDate"@[0] != "profits"@[0]);
    assert("endDate"@ != "profits"@);
    assert("endDate"@ != "features"@);
    assert("endDate"@ != "keywords"@);
    assert("endDate"@ != "startDate"@);
    assert("endDate"@ != "url"@);
    assert("endDate"@ != "roles"@);
    assert("endDate"@ != "entity"@);
    assert("endDate"@ != "type"@);
    let s1 = seg("name"@, opt_str_val(v.name));
    let s2 = seg("description"@, opt_str_val(v.description));
    let s3 = seg("highlights"@, list_val(v.highlights.map_values(jstr_f())));
    let s4 = seg("duties"@, list_val(v.duties.map_values(jstr_f())));
    let s5 = seg("profits"@, list_val(v.profits.map_values(jstr_f())));
    let s6 = seg("features"@, list_val(v.features.map_values(enc_feature_f())));
    let s7 = seg("keywords"@, list_val(v.keywords.map_values(jstr_f())));
    let s8 = seg("startDate"@, opt_str_val(v.start_date));
    let s9 = seg("endDate"@, opt_str_val(v.end_date));
    let s10 = seg("url"@, opt_str_val(v.url));
    let s11 = seg("roles"@, list_val(v.roles.map_values(jstr_f())));
    let s12 = seg("entity"@, opt_str_val(v.entity));
    let s13 = seg("type"@, opt_str_val(v.type_));
    let p1 = s1;
    let p2 = p1 + s2;
    let p3 = p2 + s3;
    let p4 = p3 + s4;
    let p5 = p4 + s5;
    let p6 = p5 + s6;
    let p7 = p6 + s7;
    let p8 = p7 + s8;
    let p9 = p8 + s9;
    let p10 = p9 + s10;
    let p11 = p10 + s11;
    let p12 = p11 + s12;
    let p13 = p12 + s13;
    lemma_get_seg("name"@, opt_str_val(v.name), "endDate"@);
    lemma_get_seg("description"@, opt_str_val(v.description), "endDate"@);
    lemma_get_seg("highlights"@, list_val(v.highlights.map_values(jstr_f())), "endDate"@);
    lemma_get_seg("duties"@, list_val(v.duties.map_values(jstr_f())), "endDate"@);
    lemma_get_seg("profits"@, list_val(v.profits.map_values(jstr_f())), "endDate"@);
    lemma_get_seg("features"@, list_val(v.features.map_values(enc_feature_f())), "endDate"@);
    lemma_get_seg("keywords"@, list_val(v.keywords.map_values(jstr_f())), "endDate"@);
    lemma_get_seg("startDate"@, opt_str_val(v.start_date), "endDate"@);
    lemma_get_seg("endDate"@, opt_str_val(v.end_date), "endDate"@);
    lemma_get_seg("url"@, opt_str_val(v.url), "endDate"@);
    lemma_get_seg("roles"@, list_val(v.roles.map_values(jstr_f())), "endDate"@);
    lemma_get_seg("entity"@, opt_str_val(v.entity), "endDate"@);
    lemma_get_seg("type"@, opt_str_val(v.type_), "endDate"@);
    lemma_obj_get_append(p1, s2, "endDate"@);
    lemma_obj_get_append(p2, s3, "endDate"@);
    lemma_obj_get_append(p3, s4, "endDate"@);
    lemma_obj_get_append(p4, s5, "endDate"@);
    lemma_obj_get_append(p5, s6, "endDate"@);
    lemma_obj_get_append(p6, s7, "endDate"@);
    lemma_obj_get_append(p7, s8, "endDate"@);
    lemma_obj_get_append(p8, s9, "endDate"@);
    lemma_obj_get_append(p9, s10, "endDate"@);
    lemma_obj_get_append(p10, s11, "endDate"@);
    lemma_obj_get_append(p11, s12, "endDate"@);
    lemma_obj_get_append(p12, s13, "endDate"@);
    assert(enc_project_fields(v) == p13);
}

/// Where the `url` member of an encoded [`ProjectView`] stands.
#[verifier::rlimit(80)]
proof fn lemma_project_member_url(v: ProjectView)
    ensures
        jv_obj_get(enc_project_fields(v), "url"@) == opt_str_val(v.url),
{
    reveal_strlit("description");
    assert("description"@.len() == 11);
    reveal_strlit("duties");
    assert("duties"@.len() == 6);
    reveal_strlit("endDate");
    assert("endDate"@.len() == 7);
    reveal_strlit("entity");
    assert("entity"@.len() == 6);
    reveal_strlit("features");
    assert("features"@.len() == 8);
    reveal_strlit("highlights");
    assert("highlights"@.len() == 10);
    reveal_strlit("keywords");
    assert("keywords"@.len() == 8);
    reveal_strlit("name");
    assert("name"@.len() == 4);
    reveal_strlit("profits");
    assert("profits"@.len() == 7);
    reveal_strlit("roles");
    assert("roles"@.len() == 5);
    reveal_strlit("startDate");
    assert("startDate"@.len() == 9);
    reveal_strlit("type");
    assert("type"@.len() == 4);
    reveal_strlit("url");
    assert("url"@.len() == 3);
    assert("url"@ != "name"@);
    assert("url"@ != "description"@);
    assert("url"@ != "highlights"@);
    assert("url"@ != "duties"@);
    assert("url"@ != "profits"@);
    assert("url"@ != "features"@);
    assert("url"@ != "keywords"@);
    assert("url"@ != "startDate"@);
    assert("url"@ != "endDate"@);
    assert("url"@ != "roles"@);
    assert("url"@ != "entity"@);
    assert("url"@ != "type"@);
    let s1 = seg("name"@, opt_str_val(v.name));
    let s2 = seg("description"@, opt_str_val(v.description));
    let s3 = seg("highlights"@, list_val(v.highlights.map_values(jstr_f())));
    let s4 = seg("duties"@, list_val(v.duties.map_values(jstr_f())));
    let s5 = seg("profits"@, list_val(v.profits.map_values(jstr_f())));
    let s6 = seg("features"@, list_val(v.features.map_values(enc_feature_f())));
    let s7 = seg("keywords"@, list_val(v.keywords.map_values(jstr_f())));
    let s8 = seg("startDate"@, opt_str_val(v.start_date));
    let s9 = seg("endDate"@, opt_str_val(v.end_date));
    let s10 = seg("url"@, opt_str_val(v.url));
    let s11 = seg("roles"@, list_val(v.roles.map_values(jstr_f())));
    let s12 = seg("entity"@, opt_str_val(v.entity));
    let s13 = seg("type"@, opt_str_val(v.type_));
    let p1 = s1;
    let p2 = p1 + s2;
    let p3 = p2 + s3;
    let p4 = p3 + s4;
    let p5 = p4 + s5;
    let p6 = p5 + s6;
    let p7 = p6 + s7;
    let p8 = p7 + s8;
    let p9 = p8 + s9;
    let p10 = p9 + s10;
    let p11 = p10 + s11;
    let p12 = p11 + s12;
    let p13 = p12 + s13;
    lemma_get_seg("name"@, opt_str_val(v.name), "url"@);
    lemma_get_seg("description"@, opt_str_val(v.description), "url"@);
    lemma_get_seg("highlights"@, list_val(v.highlights.map_values(jstr_f())), "url"@);
    lemma_get_seg("duties"@, list_val(v.duties.map_values(jstr_f())), "url"@);
    lemma_get_seg("profits"@, list_val(v.profits.map_values(jstr_f())), "url"@);
    lemma_get_seg("features"@, list_val(v.features.map_values(enc_feature_f())), "url"@);
    lemma_get_seg("keywords"@, list_val(v.keywords.map_values(jstr_f())), "url"@);
    lemma_get_seg("startDate"@, opt_str_val(v.start_date), "url"@);
    lemma_get_seg("endDate"@, opt_str_val(v.end_date), "url"@);
    lemma_get_seg("url"@, opt_str_val(v.url), "url"@);
    lemma_get_seg("roles"@, list_val(v.roles.map_values(jstr_f())), "url"@);
    lemma_get_seg("entity"@, opt_str_val(v.entity), "url"@);
    lemma_get_seg("type"@, opt_str_val(v.type_), "url"@);
    lemma_obj_get_append(p1, s2, "url"@);
    lemma_obj_get_append(p2, s3, "url"@);
    lemma_obj_get_append(p3, s4, "url"@);
    lemma_obj_get_append(p4, s5, "url"@);
    lemma_obj_get_append(p5, s6, "url"@);
    lemma_obj_get_append(p6, s7, "url"@);
    lemma_obj_get_append(p7, s8, "url"@);
    lemma_obj_get_append(p8, s9, "url"@);
    lemma_obj_get_append(p9, s10, "url"@);
    lemma_obj_get_append(p10, s11, "url"@);
    lemma_obj_get_append(p11, s12, "url"@);
    lemma_obj_get_append(p12, s13, "url"@);
    assert(enc_project_fields(v) == p13);
}

/// Where the `roles` member of an encoded [`ProjectView`] stands.
#[verifier::rlimit(80)]
proof fn lemma_project_member_roles(v: ProjectView)
    ensures
        jv_obj_get(enc_project_fields(v), "roles"@) == list_val(v.roles.map_values(jstr_f())),
{
    reveal_strlit("description");
    assert("description"@.len() == 11);
    reveal_strlit("duties");
    assert("duties"@.len() == 6);
    reveal_strlit("endDate");
    assert("endDate"@.len() == 7);
    reveal_strlit("entity");
    assert("entity"@.len() == 6);
    reveal_strlit("features");
    assert("features"@.len() == 8);
    reveal_strlit("highlights");
    assert("highlights"@.len() == 10);
    reveal_strlit("keywords");
    assert("keywords"@.len() == 8);
    reveal_strlit("name");
    assert("name"@.len() == 4);
    reveal_strlit("profits");
    assert("profits"@.len() == 7);
    reveal_strlit("roles");
    assert("roles"@.len() == 5);
    reveal_strlit("startDate");
    assert("startDate"@.len() == 9);
    reveal_strlit("type");
    assert("type"@.len() == 4);
    reveal_strlit("url");
    assert("url"@.len() == 3);
    assert("roles"@ != "name"@);
    assert("roles"@ != "description"@);
    assert("roles"@ != "highlights"@);
    assert("roles"@ != "duties"@);
    assert("roles"@ != "profits"@);
    assert("roles"@ != "features"@);
    assert("roles"@ != "keywords"@);
    assert("roles"@ != "startDate"@);
    assert("roles"@ != "endDate"@);
    assert("roles"@ != "url"@);
    assert("roles"@ != "entity"@);
    assert("roles"@ != "type"@);
    let s1 = seg("name"@, opt_str_val(v.name));
    let s2 = seg("description"@, opt_str_val(v.description));
    let s3 = seg("highlights"@, list_val(v.highlights.map_values(jstr_f())));
    let s4 = seg("duties"@, list_val(v.duties.map_values(jstr_f())));
    let s5 = seg("profits"@, list_val(v.profits.map_values(jstr_f())));
    let s6 = seg("features"@, list_val(v.features.map_values(enc_feature_f())));
    let s7 = seg("keywords"@, list_val(v.keywords.map_values(jstr_f())));
    let s8 = seg("startDate"@, opt_str_val(v.start_date));
    let s9 = seg("endDate"@, opt_str_val(v.end_date));
    let s10 = seg("url"@, opt_str_val(v.url));
    let s11 = seg("roles"@, list_val(v.roles.map_values(jstr_f())));
    let s12 = seg("entity"@, opt_str_val(v.entity));
    let s13 = seg("type"@, opt_str_val(v.type_));
    let p1 = s1;
    let p2 = p1 + s2;
    let p3 = p2 + s3;
    let p4 = p3 + s4;
    let p5 = p4 + s5;
    let p6 = p5 + s6;
    let p7 = p6 + s7;
    let p8 = p7 + s8;
    let p9 = p8 + s9;
    let p10 = p9 + s10;
    let p11 = p10 + s11;
    let p12 = p11 + s12;
    let p13 = p12 + s13;
    lemma_get_seg("name"@, opt_str_val(v.name), "roles"@);
    lemma_get_seg("description"@, opt_str_val(v.description), "roles"@);
    lemma_get_seg("highlights"@, list_val(v.highlights.map_values(jstr_f())), "roles"@);
    lemma_get_seg("duties"@, list_val(v.duties.map_values(jstr_f())), "roles"@);
    lemma_get_seg("profits"@, list_val(v.profits.map_values(jstr_f())), "roles"@);
    lemma_get_seg("features"@, list_val(v.features.map_values(enc_feature_f())), "roles"@);
    lemma_get_seg("keywords"@, list_val(v.keywords.map_values(jstr_f())), "roles"@);
    lemma_get_seg("startDate"@, opt_str_val(v.start_date), "roles"@);
    lemma_get_seg("endDate"@, opt_str_val(v.end_date), "roles"@);
    lemma_get_seg("url"@, opt_str_val(v.url), "roles"@);
    lemma_get_seg("roles"@, list_val(v.roles.map_values(jstr_f())), "roles"@);
    lemma_get_seg("entity"@, opt_str_val(v.entity), "roles"@);
    lemma_get_seg("type"@, opt_str_val(v.type_), "roles"@);
    lemma_obj_get_append(p1, s2, "roles"@);
    lemma_obj_get_append(p2, s3, "roles"@);
    lemma_obj_get_append(p3, s4, "roles"@);
    lemma_obj_get_append(p4, s5, "roles"@);
    lemma_obj_get_append(p5, s6, "roles"@);
    lemma_obj_get_append(p6, s7, "roles"@);
    lemma_obj_get_append(p7, s8, "roles"@);
    lemma_obj_get_append(p8, s9, "roles"@);
    lemma_obj_get_append(p9, s10, "roles"@);
    lemma_obj_get_append(p10, s11, "roles"@);
    lemma_obj_get_append(p11, s12, "roles"@);
    lemma_obj_get_append(p12, s13, "roles"@);
    assert(enc_project_fields(v) == p13);
}

/// Where the `entity` member of an encoded [`ProjectView`] stands.
#[verifier::rlimit(80)]
proof fn lemma_project_member_entity(v: ProjectView)
    ensures
        jv_obj_get(enc_project_fields(v), "entity"@) == opt_str_val(v.entity),
{
    reveal_strlit("description");
    assert("description"@.len() == 11);
    reveal_strlit("duties");
    assert("duties"@.len() == 6);
    reveal_strlit("endDate");
    assert("endDate"@.len() == 7);
    reveal_strlit("entity");
    assert("entity"@.len() == 6);
    reveal_strlit("features");
    assert("features"@.len() == 8);
    reveal_strlit("highlights");
    assert("highlights"@.len() == 10);
    reveal_strlit("keywords");
    assert("keywords"@.len() == 8);
    reveal_strlit("name");
    assert("name"@.len() == 4);
    reveal_strlit("profits");
    assert("profits"@.len() == 7);
    reveal_strlit("roles");
    assert("roles"@.len() == 5);
    reveal_strlit("startDate");
    assert("startDate"@.len() == 9);
    reveal_strlit("type");
    assert("type"@.len() == 4);
    reveal_strlit("url");
    assert("url"@.len() == 3);
    assert("entity"@ != "name"@);
    assert("entity"@ != "description"@);
    assert("entity"@ != "highlights"@);
    assert("entity"@[0] != "duties"@[0]);
    assert("entity"@ != "duties"@);
    assert("entity"@ != "profits"@);
    assert("entity"@ != "features"@);
    assert("entity"@ != "keywords"@);
    assert("entity"@ != "startDate"@);
    assert("entity"@ != "endDate"@);
    assert("entity"@ != "url"@);
    assert("entity"@ != "roles"@);
    assert("entity"@ != "type"@);
    let s1 = seg("name"@, opt_str_val(v.name));
    let s2 = seg("description"@, opt_str_val(v.description));
    let s3 = seg("highlights"@, list_val(v.highlights.map_values(jstr_f())));
    let s4 = seg("duties"@, list_val(v.duties.map_values(jstr_f())));
    let s5 = seg("profits"@, list_val(v.profits.map_values(jstr_f())));
    let s6 = seg("features"@, list_val(v.features.map_values(enc_feature_f())));
    let s7 = seg("keywords"@, list_val(v.keywords.map_values(jstr_f())));
    let s8 = seg("startDate"@, opt_str_val(v.start_date));
    let s9 = seg("endDate"@, opt_str_val(v.end_date));
    let s10 = seg("url"@, opt_str_val(v.url));
    let s11 = seg("roles"@, list_val(v.roles.map_values(jstr_f())));
    let s12 = seg("entity"@, opt_str_val(v.entity));
    let s13 = seg("type"@, opt_str_val(v.type_));
    let p1 = s1;
    let p2 = p1 + s2;
    let p3 = p2 + s3;
    let p4 = p3 + s4;
    let p5 = p4 + s5;
    let p6 = p5 + s6;
    let p7 = p6 + s7;
    let p8 = p7 + s8;
    let p9 = p8 + s9;
    let p10 = p9 + s10;
    let p11 = p10 + s11;
    let p12 = p11 + s12;
    let p13 = p12 + s13;
    lemma_get_seg("name"@, opt_str_val(v.name), "entity"@);
    lemma_get_seg("description"@, opt_str_val(v.description), "entity"@);
    lemma_get_seg("highlights"@, list_val(v.highlights.map_values(jstr_f())), "entity"@);
    lemma_get_seg("duties"@, list_val(v.duties.map_values(jstr_f())), "entity"@);
    lemma_get_seg("profits"@, list_val(v.profits.map_values(jstr_f())), "entity"@);
    lemma_get_seg("features"@, list_val(v.features.map_values(enc_feature_f())), "entity"@);
    lemma_get_seg("keywords"@, list_val(v.keywords.map_values(jstr_f())), "entity"@);
    lemma_get_seg("startDate"@, opt_str_val(v.start_date), "entity"@);
    lemma_get_seg("endDate"@, opt_str_val(v.end_date), "entity"@);
    lemma_get_seg("url"@, opt_str_val(v.url), "entity"@);
    lemma_get_seg("roles"@, list_val(v.roles.map_values(jstr_f())), "entity"@);
    lemma_get_seg("entity"@, opt_str_val(v.entity), "entity"@);
    lemma_get_seg("type"@, opt_str_val(v.type_), "entity"@);
    lemma_obj_get_append(p1, s2, "entity"@);
    lemma_obj_get_append(p2, s3, "entity"@);
    lemma_obj_get_append(p3, s4, "entity"@);
    lemma_obj_get_append(p4, s5, "entity"@);
    lemma_obj_get_append(p5, s6, "entity"@);
    lemma_obj_get_append(p6, s7, "entity"@);
    lemma_obj_get_append(p7, s8, "entity"@);
    lemma_obj_get_append(p8, s9, "entity"@);
    lemma_obj_get_append(p9, s10, "entity"@);
    lemma_obj_get_append(p10, s11, "entity"@);
    lemma_obj_get_append(p11, s12, "entity"@);
    lemma_obj_get_append(p12, s13, "entity"@);
    assert(enc_project_fields(v) == p13);
}

/// Where the `type` member of an encoded [`ProjectView`] stands.
#[verifier::rlimit(80)]
proof fn lemma_project_member_type_(v: ProjectView)
    ensures
        jv_obj_get(enc_project_fields(v), "type"@) == opt_str_val(v.type_),
{
    reveal_strlit("description");
    assert("description"@.len() == 11);
    reveal_strlit("duties");
    assert("duties"@.len() == 6);
    reveal_strlit("endDate");
    assert("endDate"@.len() == 7);
    reveal_strlit("entity");
    assert("entity"@.len() == 6);
    reveal_strlit("features");
    assert("features"@.len() == 8);
    reveal_strlit("highlights");
    assert("highlights"@.len() == 10);
    reveal_strlit("keywords");
    assert("keywords"@.len() == 8);
    reveal_strlit("name");
    assert("name"@.len() == 4);
    reveal_strlit("profits");
    assert("profits"@.len() == 7);
    reveal_strlit("roles");
    assert("roles"@.len() == 5);
    reveal_strlit("startDate");
    assert("startDate"@.len() == 9);
    reveal_strlit("type");
    assert("type"@.len() == 4);
    reveal_strlit("url");
    assert("url"@.len() == 3);
    assert("type"@[0] != "name"@[0]);
    assert("type"@ != "name"@);
    assert("type"@ != "description"@);
    assert("type"@ != "highlights"@);
    assert("type"@ != "duties"@);
    assert("type"@ != "profits"@);
    assert("type"@ != "features"@);
    assert("type"@ != "keywords"@);
    assert("type"@ != "startDate"@);
    assert("type"@ != "endDate"@);
    assert("type"@ != "url"@);
    assert("type"@ != "roles"@);
    assert("type"@ != "entity"@);
    let s1 = seg("name"@, opt_str_val(v.name));
    let s2 = seg("description"@, opt_str_val(v.description));
    let s3 = seg("highlights"@, list_val(v.highlights.map_values(jstr_f())));
    let s4 = seg("duties"@, list_val(v.duties.map_values(jstr_f())));
    let s5 = seg("profits"@, list_val(v.profits.map_values(jstr_f())));
    let s6 = seg("features"@, list_val(v.features.map_values(enc_feature_f())));
    let s7 = seg("keywords"@, list_val(v.keywords.map_values(jstr_f())));
    let s8 = seg("startDate"@, opt_str_val(v.start_date));
    let s9 = seg("endDate"@, opt_str_val(v.end_date));
    let s10 = seg("url"@, opt_str_val(v.url));
    let s11 = seg("roles"@, list_val(v.roles.map_values(jstr_f())));
    let s12 = seg("entity"@, opt_str_val(v.entity));
    let s13 = seg("type"@, opt_str_val(v.type_));
    let p1 = s1;
    let p2 = p1 + s2;
    let p3 = p2 + s3;
    let p4 = p3 + s4;
    let p5 = p4 + s5;
    let p6 = p5 + s6;
    let p7 = p6 + s7;
    let p8 = p7 + s8;
    let p9 = p8 + s9;
    let p10 = p9 + s10;
    let p11 = p10 + s11;
    let p12 = p11 + s12;
    let p13 = p12 + s13;
    lemma_get_seg("name"@, opt_str_val(v.name), "type"@);
    lemma_get_seg("description"@, opt_str_val(v.description), "type"@);
    lemma_get_seg("highlights"@, list_val(v.highlights.map_values(jstr_f())), "type"@);
    lemma_get_seg("duties"@, list_val(v.duties.map_values(jstr_f())), "type"@);
    lemma_get_seg("profits"@, list_val(v.profits.map_values(jstr_f())), "type"@);
    lemma_get_seg("features"@, list_val(v.features.map_values(enc_feature_f())), "type"@);
    lemma_get_seg("keywords"@, list_val(v.keywords.map_values(jstr_f())), "type"@);
    lemma_get_seg("startDate"@, opt_str_val(v.start_date), "type"@);
    lemma_get_seg("endDate"@, opt_str_val(v.end_date), "type"@);
    lemma_get_seg("url"@, opt_str_val(v.url), "type"@);
    lemma_get_seg("roles"@, list_val(v.roles.map_values(jstr_f())), "type"@);
    lemma_get_seg("entity"@, opt_str_val(v.entity), "type"@);
    lemma_get_seg("type"@, opt_str_val(v.type_), "type"@);
    lemma_obj_get_append(p1, s2, "type"@);
    lemma_obj_get_append(p2, s3, "type"@);
    lemma_obj_get_append(p3, s4, "type"@);
    lemma_obj_get_append(p4, s5, "type"@);
    lemma_obj_get_append(p5, s6, "type"@);
    lemma_obj_get_append(p6, s7, "type"@);
    lemma_obj_get_append(p7, s8, "type"@);
    lemma_obj_get_append(p8, s9, "type"@);
    lemma_obj_get_append(p9, s10, "type"@);
    lemma_obj_get_append(p10, s11, "type"@);
    lemma_obj_get_append(p11, s12, "type"@);
    lemma_obj_get_append(p12, s13, "type"@);
    assert(enc_project_fields(v) == p13);
}

/// A [`ProjectView`] survives the round trip through the wire format.
#[verifier::rlimit(100)]
pub proof fn lemma_project_roundtrip(v: ProjectView)
    ensures
        dec_project(enc_project(v)) == Some(v),
{
    let f = enc_project_fields(v);
    lemma_project_member_name(v);
    assert(jv_obj_get(f, "name"@) == opt_str_val(v.name));
    lemma_project_member_description(v);
    assert(jv_obj_get(f, "description"@) == opt_str_val(v.description));
    lemma_project_member_highlights(v);
    assert(jv_obj_get(f, "highlights"@) == list_val(v.highlights.map_values(jstr_f())));
    lemma_project_member_duties(v);
    assert(jv_obj_get(f, "duties"@) == list_val(v.duties.map_values(jstr_f())));
    lemma_project_member_profits(v);
    assert(jv_obj_get(f, "profits"@) == list_val(v.profits.map_values(jstr_f())));
    lemma_project_member_features(v);
    assert(jv_obj_get(f, "features"@) == list_val(v.features.map_values(enc_feature_f())));
    lemma_project_member_keywords(v);
    assert(jv_obj_get(f, "keywords"@) == list_val(v.keywords.map_values(jstr_f())));
    lemma_project_member_start_date(v);
    assert(jv_obj_get(f, "startDate"@) == opt_str_val(v.start_date));
    lemma_project_member_end_date(v);
    assert(jv_obj_get(f, "endDate"@) == opt_str_val(v.end_date));
    lemma_project_member_url(v);
    assert(jv_obj_get(f, "url"@) == opt_str_val(v.url));
    lemma_project_member_roles(v);
    assert(jv_obj_get(f, "roles"@) == list_val(v.roles.map_values(jstr_f())));
    lemma_project_member_entity(v);
    assert(jv_obj_get(f, "entity"@) == opt_str_val(v.entity));
    lemma_project_member_type_(v);
    assert(jv_obj_get(f, "type"@) == opt_str_val(v.type_));
    assert(dec_opt_str(f, "name"@) == Some(v.name));
    assert(dec_opt_str(f, "description"@) == Some(v.description));
    assert forall|x: Seq<char>| #[trigger] dec_str_f()(jstr_f()(x)) == Some(x) by {
        assert(jstr_f()(x) == JsonV::Str(x));
        assert(dec_str_val(JsonV::Str(x)) == Some(x));
    }
    lemma_list_roundtrip(v.highlights, jstr_f(), dec_str_f());
    if v.highlights.len() == 0 {
        assert(v.highlights =~= Seq::<Seq<char>>::empty());
    }
    assert(dec_list(f, "highlights"@, dec_str_f()) == Some(v.highlights));
    assert forall|x: Seq<char>| #[trigger] dec_str_f()(jstr_f()(x)) == Some(x) by {
        assert(jstr_f()(x) == JsonV::Str(x));
        assert(dec_str_val(JsonV::Str(x)) == Some(x));
    }
    lemma_list_roundtrip(v.duties, jstr_f(), dec_str_f());
    if v.duties.len() == 0 {
        assert(v.duties =~= Seq::<Seq<char>>::empty());
    }
    assert(dec_list(f, "duties"@, dec_str_f()) == Some(v.duties));
    assert forall|x: Seq<char>| #[trigger] dec_str_f()(jstr_f()(x)) == Some(x) by {
        assert(jstr_f()(x) == JsonV::Str(x));
        assert(dec_str_val(JsonV::Str(x)) == Some(x));
    }
    lemma_list_roundtrip(v.profits, jstr_f(), dec_str_f());
    if v.profits.len() == 0 {
        assert(v.profits =~= Seq::<Seq<char>>::empty());
    }
    assert(dec_list(f, "profits"@, dec_str_f()) == Some(v.profits));
    assert forall|a: FeatureView| #[trigger] dec_feature_f()(enc_feature_f()(a)) == Some(a) by {
        lemma_feature_roundtrip(a);
    }
    lemma_list_roundtrip(v.features, enc_feature_f(), dec_feature_f());
    if v.features.len() == 0 {
        assert(v.features =~= Seq::<FeatureView>::empty());
    }
    assert(dec_list(f, "features"@, dec_feature_f()) == Some(v.features));
    assert forall|x: Seq<char>| #[trigger] dec_str_f()(jstr_f()(x)) == Some(x) by {
        assert(jstr_f()(x) == JsonV::Str(x));
        assert(dec_str_val(JsonV::Str(x)) == Some(x));
    }
    lemma_list_roundtrip(v.keywords, jstr_f(), dec_str_f());
    if v.keywords.len() == 0 {
        assert(v.keywords =~= Seq::<Seq<char>>::empty());
    }
    assert(dec_list(f, "keywords"@, dec_str_f()) == Some(v.keywords));
    assert(dec_opt_str(f, "startDate"@) == Some(v.start_date));
    assert(dec_opt_str(f, "endDate"@) == Some(v.end_date));
    assert(dec_opt_str(f, "url"@) == Some(v.url));
    assert forall|x: Seq<char>| #[trigger] dec_str_f()(jstr_f()(x)) == Some(x) by {
        assert(jstr_f()(x) == JsonV::Str(x));
        assert(dec_str_val(JsonV::Str(x)) == Some(x));
    }
    lemma_list_roundtrip(v.roles, jstr_f(), dec_str_f());
    if v.roles.len() == 0 {
        assert(v.roles =~= Seq::<Seq<char>>::empty());
    }
    assert(dec_list(f, "roles"@, dec_str_f()) == Some(v.roles));
    assert(dec_opt_str(f, "entity"@) == Some(v.entity));
    assert(dec_opt_str(f, "type"@) == Some(v.type_));
    assert(dec_project_fields(f) is Some);
    assert(dec_project_fields(f).unwrap() =~~= v);
}

/// A [`BasicsView`] survives the round trip through the wire format.
#[verifier::rlimit(50)]
pub proof fn lemma_basics_roundtrip(v: BasicsView)
    ensures
        dec_basics(enc_basics(v)) == Some(v),
{
    reveal_strlit("email");
    assert("email"@.len() == 5);
    reveal_strlit("image");
    assert("image"@.len() == 5);
    reveal_strlit("label");
    assert("label"@.len() == 5);
    reveal_strlit("location");
    assert("location"@.len() == 8);
    reveal_strlit("name");
    assert("name"@.len() == 4);
    reveal_strlit("phone");
    assert("phone"@.len() == 5);
    reveal_strlit("profiles");
    assert("profiles"@.len() == 8);
    reveal_strlit("summary");
    assert("summary"@.len() == 7);
    reveal_strlit("url");
    assert("url"@.len() == 3);
    assert("name"@ != "label"@);
    assert("name"@ != "image"@);
    assert("name"@ != "email"@);
    assert("name"@ != "phone"@);
    assert("name"@ != "url"@);
    assert("name"@ != "summary"@);
    assert("name"@ != "location"@);
    assert("name"@ != "profiles"@);
    assert("label"@[0] != "image"@[0]);
    assert("label"@ != "image"@);
    assert("label"@[0] != "email"@[0]);
    assert("label"@ != "email"@);
    assert("label"@[0] != "phone"@[0]);
    assert("label"@ != "phone"@);
    assert("label"@ != "url"@);
    assert("label"@ != "summary"@);
    assert("label"@ != "location"@);
    assert("label"@ != "profiles"@);
    assert("image"@[0] != "email"@[0]);
    assert("image"@ != "email"@);
    assert("image"@[0] != "phone"@[0]);
    assert("image"@ != "phone"@);
    assert("image"@ != "url"@);
    assert("image"@ != "summary"@);
    assert("image"@ != "location"@);
    assert("image"@ != "profiles"@);
    assert("email"@[0] != "phone"@[0]);
    assert("email"@ != "phone"@);
    assert("email"@ != "url"@);
    assert("email"@ != "summary"@);
    assert("email"@ != "location"@);
    assert("email"@ != "profiles"@);
    assert("phone"@ != "url"@);
    assert("phone"@ != "summary"@);
    assert("phone"@ != "location"@);
    assert("phone"@ != "profiles"@);
    assert("url"@ != "summary"@);
    assert("url"@ != "location"@);
    assert("url"@ != "profiles"@);
    assert("summary"@ != "location"@);
    assert("summary"@ != "profiles"@);
    assert("location"@[0] != "profiles"@[0]);
    assert("location"@ != "profiles"@);
    let f = enc_basics_fields(v);
    let s1 = seg("name"@, opt_str_val(v.name));
    let s2 = seg("label"@, opt_str_val(v.label));
    let s3 = seg("image"@, opt_str_val(v.image));
    let s4 = seg("email"@, opt_str_val(v.email));
    let s5 = seg("phone"@, opt_str_val(v.phone));
    let s6 = seg("url"@, opt_str_val(v.url));
    let s7 = seg("summary"@, opt_str_val(v.summary));
    let s8 = seg("location"@, Some(enc_location(v.location)));
    let s9 = seg("profiles"@, list_val(v.profiles.map_values(enc_profile_f())));
    let p1 = s1;
    let p2 = p1 + s2;
    let p3 = p2 + s3;
    let p4 = p3 + s4;
    let p5 = p4 + s5;
    let p6 = p5 + s6;
    let p7 = p6 + s7;
    let p8 = p7 + s8;
    let p9 = p8 + s9;
    lemma_get_seg("name"@, opt_str_val(v.name), "name"@);
    lemma_get_seg("label"@, opt_str_val(v.label), "name"@);
    lemma_get_seg("image"@, opt_str_val(v.image), "name"@);
    lemma_get_seg("email"@, opt_str_val(v.email), "name"@);
    lemma_get_seg("phone"@, opt_str_val(v.phone), "name"@);
    lemma_get_seg("url"@, opt_str_val(v.url), "name"@);
    lemma_get_seg("summary"@, opt_str_val(v.summary), "name"@);
    lemma_get_seg("location"@, Some(enc_location(v.location)), "name"@);
    lemma_get_seg("profiles"@, list_val(v.profiles.map_values(enc_profile_f())), "name"@);
    lemma_obj_get_append(p1, s2, "name"@);
    lemma_obj_get_append(p2, s3, "name"@);
    lemma_obj_get_append(p3, s4, "name"@);
    lemma_obj_get_append(p4, s5, "name"@);
    lemma_obj_get_append(p5, s6, "name"@);
    lemma_obj_get_append(p6, s7, "name"@);
    lemma_obj_get_append(p7, s8, "name"@);
    lemma_obj_get_append(p8, s9, "name"@);
    assert(jv_obj_get(f, "name"@) == opt_str_val(v.name));
    lemma_get_seg("name"@, opt_str_val(v.name), "label"@);
    lemma_get_seg("label"@, opt_str_val(v.label), "label"@);
    lemma_get_seg("image"@, opt_str_val(v.image), "label"@);
    lemma_get_seg("email"@, opt_str_val(v.email), "label"@);
    lemma_get_seg("phone"@, opt_str_val(v.phone), "label"@);
    lemma_get_seg("url"@, opt_str_val(v.url), "label"@);
    lemma_get_seg("summary"@, opt_str_val(v.summary), "label"@);
    lemma_get_seg("location"@, Some(enc_location(v.location)), "label"@);
    lemma_get_seg("profiles"@, list_val(v.profiles.map_values(enc_profile_f())), "label"@);
    lemma_obj_get_append(p1, s2, "label"@);
    lemma_obj_get_append(p2, s3, "label"@);
    lemma_obj_get_append(p3, s4, "label"@);
    lemma_obj_get_append(p4, s5, "label"@);
    lemma_obj_get_append(p5, s6, "label"@);
    lemma_obj_get_append(p6, s7, "label"@);
    lemma_obj_get_append(p7, s8, "label"@);
    lemma_obj_get_append(p8, s9, "label"@);
    assert(jv_obj_get(f, "label"@) == opt_str_val(v.label));
    lemma_get_seg("name"@, opt_str_val(v.name), "image"@);
    lemma_get_seg("label"@, opt_str_val(v.label), "image"@);
    lemma_get_seg("image"@, opt_str_val(v.image), "image"@);
    lemma_get_seg("email"@, opt_str_val(v.email), "image"@);
    lemma_get_seg("phone"@, opt_str_val(v.phone), "image"@);
    lemma_get_seg("url"@, opt_str_val(v.url), "image"@);
    lemma_get_seg("summary"@, opt_str_val(v.summary), "image"@);
    lemma_get_seg("location"@, Some(enc_location(v.location)), "image"@);
    lemma_get_seg("profiles"@, list_val(v.profiles.map_values(enc_profile_f())), "image"@);
    lemma_obj_get_append(p1, s2, "image"@);
    lemma_obj_get_append(p2, s3, "image"@);
    lemma_obj_get_append(p3, s4, "image"@);
    lemma_obj_get_append(p4, s5, "image"@);
    lemma_obj_get_append(p5, s6, "image"@);
    lemma_obj_get_append(p6, s7, "image"@);
    lemma_obj_get_append(p7, s8, "image"@);
    lemma_obj_get_append(p8, s9, "image"@);
    assert(jv_obj_get(f, "image"@) == opt_str_val(v.image));
    lemma_get_seg("name"@, opt_str_val(v.name), "email"@);
    lemma_get_seg("label"@, opt_str_val(v.label), "email"@);
    lemma_get_seg("image"@, opt_str_val(v.image), "email"@);
    lemma_get_seg("email"@, opt_str_val(v.email), "email"@);
    lemma_get_seg("phone"@, opt_str_val(v.phone), "email"@);
    lemma_get_seg("url"@, opt_str_val(v.url), "email"@);
    lemma_get_seg("summary"@, opt_str_val(v.summary), "email"@);
    lemma_get_seg("location"@, Some(enc_location(v.location)), "email"@);
    lemma_get_seg("profiles"@, list_val(v.profiles.map_values(enc_profile_f())), "email"@);
    lemma_obj_get_append(p1, s2, "email"@);
    lemma_obj_get_append(p2, s3, "email"@);
    lemma_obj_get_append(p3, s4, "email"@);
    lemma_obj_get_append(p4, s5, "email"@);
    lemma_obj_get_append(p5, s6, "email"@);
    lemma_obj_get_append(p6, s7, "email"@);
    lemma_obj_get_append(p7, s8, "email"@);
    lemma_obj_get_append(p8, s9, "email"@);
    assert(jv_obj_get(f, "email"@) == opt_str_val(v.email));
    lemma_get_seg("name"@, opt_str_val(v.name), "phone"@);
    lemma_get_seg("label"@, opt_str_val(v.label), "phone"@);
    lemma_get_seg("image"@, opt_str_val(v.image), "phone"@);
    lemma_get_seg("email"@, opt_str_val(v.email), "phone"@);
    lemma_get_seg("phone"@, opt_str_val(v.phone), "phone"@);
    lemma_get_seg("url"@, opt_str_val(v.url), "phone"@);
    lemma_get_seg("summary"@, opt_str_val(v.summary), "phone"@);
    lemma_get_seg("location"@, Some(enc_location(v.location)), "phone"@);
    lemma_get_seg("profiles"@, list_val(v.profiles.map_values(enc_profile_f())), "phone"@);
    lemma_obj_get_append(p1, s2, "phone"@);
    lemma_obj_get_append(p2, s3, "phone"@);
    lemma_obj_get_append(p3, s4, "phone"@);
    lemma_obj_get_append(p4, s5, "phone"@);
    lemma_obj_get_append(p5, s6, "phone"@);
    lemma_obj_get_append(p6, s7, "phone"@);
    lemma_obj_get_append(p7, s8, "phone"@);
    lemma_obj_get_append(p8, s9, "phone"@);
    assert(jv_obj_get(f, "phone"@) == opt_str_val(v.phone));
    lemma_get_seg("name"@, opt_str_val(v.name), "url"@);
    lemma_get_seg("label"@, opt_str_val(v.label), "url"@);
    lemma_get_seg("image"@, opt_str_val(v.image), "url"@);
    lemma_get_seg("email"@, opt_str_val(v.email), "url"@);
    lemma_get_seg("phone"@, opt_str_val(v.phone), "url"@);
    lemma_get_seg("url"@, opt_str_val(v.url), "url"@);
    lemma_get_seg("summary"@, opt_str_val(v.summary), "url"@);
    lemma_get_seg("location"@, Some(enc_location(v.location)), "url"@);
    lemma_get_seg("profiles"@, list_val(v.profiles.map_values(enc_profile_f())), "url"@);
    lemma_obj_get_append(p1, s2, "url"@);
    lemma_obj_get_append(p2, s3, "url"@);
    lemma_obj_get_append(p3, s4, "url"@);
    lemma_obj_get_append(p4, s5, "url"@);
    lemma_obj_get_append(p5, s6, "url"@);
    lemma_obj_get_append(p6, s7, "url"@);
    lemma_obj_get_append(p7, s8, "url"@);
    lemma_obj_get_append(p8, s9, "url"@);
    assert(jv_obj_get(f, "url"@) == opt_str_val(v.url));
    lemma_get_seg("name"@, opt_str_val(v.name), "summary"@);
    lemma_get_seg("label"@, opt_str_val(v.label), "summary"@);
    lemma_get_seg("image"@, opt_str_val(v.image), "summary"@);
    lemma_get_seg("email"@, opt_str_val(v.email), "summary"@);
    lemma_get_seg("phone"@, opt_str_val(v.phone), "summary"@);
    lemma_get_seg("url"@, opt_str_val(v.url), "summary"@);
    lemma_get_seg("summary"@, opt_str_val(v.summary), "summary"@);
    lemma_get_seg("location"@, Some(enc_location(v.location)), "summary"@);
    lemma_get_seg("profiles"@, list_val(v.profiles.map_values(enc_profile_f())), "summary"@);
    lemma_obj_get_append(p1, s2, "summary"@);
    lemma_obj_get_append(p2, s3, "summary"@);
    lemma_obj_get_append(p3, s4, "summary"@);
    lemma_obj_get_append(p4, s5, "summary"@);
    lemma_obj_get_append(p5, s6, "summary"@);
    lemma_obj_get_append(p6, s7, "summary"@);
    lemma_obj_get_append(p7, s8, "summary"@);
    lemma_obj_get_append(p8, s9, "summary"@);
    assert(jv_obj_get(f, "summary"@) == opt_str_val(v.summary));
    lemma_get_seg("name"@, opt_str_val(v.name), "location"@);
    lemma_get_seg("label"@, opt_str_val(v.label), "location"@);
    lemma_get_seg("image"@, opt_str_val(v.image), "location"@);
    lemma_get_seg("email"@, opt_str_val(v.email), "location"@);
    lemma_get_seg("phone"@, opt_str_val(v.phone), "location"@);
    lemma_get_seg("url"@, opt_str_val(v.url), "location"@);
    lemma_get_seg("summary"@, opt_str_val(v.summary), "location"@);
    lemma_get_seg("location"@, Some(enc_location(v.location)), "location"@);
    lemma_get_seg("profiles"@, list_val(v.profiles.map_values(enc_profile_f())), "location"@);
    lemma_obj_get_append(p1, s2, "location"@);
    lemma_obj_get_append(p2, s3, "location"@);
    lemma_obj_get_append(p3, s4, "location"@);
    lemma_obj_get_append(p4, s5, "location"@);
    lemma_obj_get_append(p5, s6, "location"@);
    lemma_obj_get_append(p6, s7, "location"@);
    lemma_obj_get_append(p7, s8, "location"@);
    lemma_obj_get_append(p8, s9, "location"@);
    assert(jv_obj_get(f, "location"@) == Some(enc_location(v.location)));
    lemma_get_seg("name"@, opt_str_val(v.name), "profiles"@);
    lemma_get_seg("label"@, opt_str_val(v.label), "profiles"@);
    lemma_get_seg("image"@, opt_str_val(v.image), "profiles"@);
    lemma_get_seg("email"@, opt_str_val(v.email), "profiles"@);
    lemma_get_seg("phone"@, opt_str_val(v.phone), "profiles"@);
    lemma_get_seg("url"@, opt_str_val(v.url), "profiles"@);
    lemma_get_seg("summary"@, opt_str_val(v.summary), "profiles"@);
    lemma_get_seg("location"@, Some(enc_location(v.location)), "profiles"@);
    lemma_get_seg("profiles"@, list_val(v.profiles.map_values(enc_profile_f())), "profiles"@);
    lemma_obj_get_append(p1, s2, "profiles"@);
    lemma_obj_get_append(p2, s3, "profiles"@);
    lemma_obj_get_append(p3, s4, "profiles"@);
    lemma_obj_get_append(p4, s5, "profiles"@);
    lemma_obj_get_append(p5, s6, "profiles"@);
    lemma_obj_get_append(p6, s7, "profiles"@);
    lemma_obj_get_append(p7, s8, "profiles"@);
    lemma_obj_get_append(p8, s9, "profiles"@);
    assert(jv_obj_get(f, "profiles"@) == list_val(v.profiles.map_values(enc_profile_f())));
    assert(dec_opt_str(f, "name"@) == Some(v.name));
    assert(dec_opt_str(f, "label"@) == Some(v.label));
    assert(dec_opt_str(f, "image"@) == Some(v.image));
    assert(dec_opt_str(f, "email"@) == Some(v.email));
    assert(dec_opt_str(f, "phone"@) == Some(v.phone));
    assert(dec_opt_str(f, "url"@) == Some(v.url));
    assert(dec_opt_str(f, "summary"@) == Some(v.summary));
    lemma_location_roundtrip(v.location);
    assert(dec_rec(f, "location"@, dec_location_f(), LocationView::empty()) == Some(v.location));
    assert forall|a: ProfileView| #[trigger] dec_profile_f()(enc_profile_f()(a)) == Some(a) by {
        lemma_profile_roundtrip(a);
    }
    lemma_list_roundtrip(v.profiles, enc_profile_f(), dec_profile_f());
    if v.profiles.len() == 0 {
        assert(v.profiles =~= Seq::<ProfileView>::empty());
    }
    assert(dec_list(f, "profiles"@, dec_profile_f()) == Some(v.profiles));
    assert(dec_basics_fields(f) is Some);
    assert(dec_basics_fields(f).unwrap() =~~= v);
}

/// Where the `basics` member of an encoded [`ResumeView`] stands.
#[verifier::rlimit(80)]
proof fn lemma_resume_member_basics(v: ResumeView)
    ensures
        jv_obj_get(enc_resume_fields(v), "basics"@) == (match v.basics { Option::Some(x) => Some(enc_basics(x)), Option::None => None }),
{
    reveal_strlit("awards");
    assert("awards"@.len() == 6);
    reveal_strlit("basics");
    assert("basics"@.len() == 6);
    reveal_strlit("certificates");
    assert("certificates"@.len() == 12);
    reveal_strlit("education");
    assert("education"@.len() == 9);
    reveal_strlit("interests");
    assert("interests"@.len() == 9);
    reveal_strlit("languages");
    assert("languages"@.len() == 9);
    reveal_strlit("meta");
    assert("meta"@.len() == 4);
    reveal_strlit("projects");
    assert("projects"@.len() == 8);
    reveal_strlit("publications");
    assert("publications"@.len() == 12);
    reveal_strlit("references");
    assert("references"@.len() == 10);
    reveal_strlit("sideProjects");
    assert("sideProjects"@.len() == 12);
    reveal_strlit("skills");
    assert("skills"@.len() == 6);
    reveal_strlit("volunteer");
    assert("volunteer"@.len() == 9);
    reveal_strlit("work");
    assert("work"@.len() == 4);
    assert("basics"@ != "work"@);
    assert("basics"@ != "volunteer"@);
    assert("basics"@ != "education"@);
    assert("basics"@[0] != "awards"@[0]);
    assert("basics"@ != "awards"@);
    assert("basics"@ != "certificates"@);
    assert("basics"@ != "publications"@);
    assert("basics"@[0] != "skills"@[0]);
    assert("basics"@ != "skills"@);
    assert("basics"@ != "languages"@);
    assert("basics"@ != "interests"@);
    assert("basics"@ != "references"@);
    assert("basics"@ != "projects"@);
    assert("basics"@ != "sideProjects"@);
    assert("basics"@ != "meta"@);
    let s1 = seg("basics"@, (match v.basics { Option::Some(x) => Some(enc_basics(x)), Option::None => None }));
    let s2 = seg("work"@, list_val(v.work.map_values(enc_work_f())));
    let s3 = seg("volunteer"@, list_val(v.volunteer.map_values(enc_volunteer_f())));
    let s4 = seg("education"@, list_val(v.education.map_values(enc_education_f())));
    let s5 = seg("awards"@, list_val(v.awards.map_values(enc_award_f())));
    let s6 = seg("certificates"@, list_val(v.certificates.map_values(enc_certificate_f())));
    let s7 = seg("publications"@, list_val(v.publications.map_values(enc_publication_f())));
    let s8 = seg("skills"@, list_val(v.skills.map_values(enc_skill_f())));
    let s9 = seg("languages"@, list_val(v.languages.map_values(enc_language_f())));
    let s10 = seg("interests"@, list_val(v.interests.map_values(enc_interest_f())));
    let s11 = seg("references"@, list_val(v.references.map_values(enc_reference_f())));
    let s12 = seg("projects"@, list_val(v.projects.map_values(enc_project_f())));
    let s13 = seg("sideProjects"@, list_val(v.side_projects.map_values(enc_project_f())));
    let s14 = seg("meta"@, (match v.meta { Option::Some(x) => Some(enc_meta(x)), Option::None => None }));
    let p1 = s1;
    let p2 = p1 + s2;
    let p3 = p2 + s3;
    let p4 = p3 + s4;
    let p5 = p4 + s5;
    let p6 = p5 + s6;
    let p7 = p6 + s7;
    let p8 = p7 + s8;
    let p9 = p8 + s9;
    let p10 = p9 + s10;
    let p11 = p10 + s11;
    let p12 = p11 + s12;
    let p13 = p12 + s13;
    let p14 = p13 + s14;
    lemma_get_seg("basics"@, (match v.basics { Option::Some(x) => Some(enc_basics(x)), Option::None => None }), "basics"@);
    lemma_get_seg("work"@, list_val(v.work.map_values(enc_work_f())), "basics"@);
    lemma_get_seg("volunteer"@, list_val(v.volunteer.map_values(enc_volunteer_f())), "basics"@);
    lemma_get_seg("education"@, list_val(v.education.map_values(enc_education_f())), "basics"@);
    lemma_get_seg("awards"@, list_val(v.awards.map_values(enc_award_f())), "basics"@);
    lemma_get_seg("certificates"@, list_val(v.certificates.map_values(enc_certificate_f())), "basics"@);
    lemma_get_seg("publications"@, list_val(v.publications.map_values(enc_publication_f())), "basics"@);
    lemma_get_seg("skills"@, list_val(v.skills.map_values(enc_skill_f())), "basics"@);
    lemma_get_seg("languages"@, list_val(v.languages.map_values(enc_language_f())), "basics"@);
    lemma_get_seg("interests"@, list_val(v.interests.map_values(enc_interest_f())), "basics"@);
    lemma_get_seg("references"@, list_val(v.references.map_values(enc_reference_f())), "basics"@);
    lemma_get_seg("projects"@, list_val(v.projects.map_values(enc_project_f())), "basics"@);
    lemma_get_seg("sideProjects"@, list_val(v.side_projects.map_values(enc_project_f())), "basics"@);
    lemma_get_seg("meta"@, (match v.meta { Option::Some(x) => Some(enc_meta(x)), Option::None => None }), "basics"@);
    lemma_obj_get_append(p1, s2, "basics"@);
    lemma_obj_get_append(p2, s3, "basics"@);
    lemma_obj_get_append(p3, s4, "basics"@);
    lemma_obj_get_append(p4, s5, "basics"@);
    lemma_obj_get_append(p5, s6, "basics"@);
    lemma_obj_get_append(p6, s7, "basics"@);
    lemma_obj_get_append(p7, s8, "basics"@);
    lemma_obj_get_append(p8, s9, "basics"@);
    lemma_obj_get_append(p9, s10, "basics"@);
    lemma_obj_get_append(p10, s11, "basics"@);
    lemma_obj_get_append(p11, s12, "basics"@);
    lemma_obj_get_append(p12, s13, "basics"@);
    lemma_obj_get_append(p13, s14, "basics"@);
    assert(enc_resume_fields(v) == p14);
}

/// Where the `work` member of an encoded [`ResumeView`] stands.
#[verifier::rlimit(80)]
proof fn lemma_resume_member_work(v: ResumeView)
    ensures
        jv_obj_get(enc_resume_fields(v), "work"@) == list_val(v.work.map_values(enc_work_f())),
{
    reveal_strlit("awards");
    assert("awards"@.len() == 6);
    reveal_strlit("basics");
    assert("basics"@.len() == 6);
    reveal_strlit("certificates");
    assert("certificates"@.len() == 12);
    reveal_strlit("education");
    assert("education"@.len() == 9);
    reveal_strlit("interests");
    assert("interests"@.len() == 9);
    reveal_strlit("languages");
    assert("languages"@.len() == 9);
    reveal_strlit("meta");
    assert("meta"@.len() == 4);
    reveal_strlit("projects");
    assert("projects"@.len() == 8);
    reveal_strlit("publications");
    assert("publications"@.len() == 12);
    reveal_strlit("references");
    assert("references"@.len() == 10);
    reveal_strlit("sideProjects");
    assert("sideProjects"@.len() == 12);
    reveal_strlit("skills");
    assert("skills"@.len() == 6);
    reveal_strlit("volunteer");
    assert("volunteer"@.len() == 9);
    reveal_strlit("work");
    assert("work"@.len() == 4);
    assert("work"@ != "basics"@);
    assert("work"@ != "volunteer"@);
    assert("work"@ != "education"@);
    assert("work"@ != "awards"@);
    assert("work"@ != "certificates"@);
    assert("work"@ != "publications"@);
    assert("work"@ != "skills"@);
    assert("work"@ != "languages"@);
    assert("work"@ != "interests"@);
    assert("work"@ != "references"@);
    assert("work"@ != "projects"@);
    assert("work"@ != "sideProjects"@);
    assert("work"@[0] != "meta"@[0]);
    assert("work"@ != "meta"@);
    let s1 = seg("basics"@, (match v.basics { Option::Some(x) => Some(enc_basics(x)), Option::None => None }));
    let s2 = seg("work"@, list_val(v.work.map_values(enc_work_f())));
    let s3 = seg("volunteer"@, list_val(v.volunteer.map_values(enc_volunteer_f())));
    let s4 = seg("education"@, list_val(v.education.map_values(enc_education_f())));
    let s5 = seg("awards"@, list_val(v.awards.map_values(enc_award_f())));
    let s6 = seg("certificates"@, list_val(v.certificates.map_values(enc_certificate_f())));
    let s7 = seg("publications"@, list_val(v.publications.map_values(enc_publication_f())));
    let s8 = seg("skills"@, list_val(v.skills.map_values(enc_skill_f())));
    let s9 = seg("languages"@, list_val(v.languages.map_values(enc_language_f())));
    let s10 = seg("interests"@, list_val(v.interests.map_values(enc_interest_f())));
    let s11 = seg("references"@, list_val(v.references.map_values(enc_reference_f())));
    let s12 = seg("projects"@, list_val(v.projects.map_values(enc_project_f())));
    let s13 = seg("sideProjects"@, list_val(v.side_projects.map_values(enc_project_f())));
    let s14 = seg("meta"@, (match v.meta { Option::Some(x) => Some(enc_meta(x)), Option::None => None }));
    let p1 = s1;
    let p2 = p1 + s2;
    let p3 = p2 + s3;
    let p4 = p3 + s4;
    let p5 = p4 + s5;
    let p6 = p5 + s6;
    let p7 = p6 + s7;
    let p8 = p7 + s8;
    let p9 = p8 + s9;
    let p10 = p9 + s10;
    let p11 = p10 + s11;
    let p12 = p11 + s12;
    let p13 = p12 + s13;
    let p14 = p13 + s14;
    lemma_get_seg("basics"@, (match v.basics { Option::Some(x) => Some(enc_basics(x)), Option::None => None }), "work"@);
    lemma_get_seg("work"@, list_val(v.work.map_values(enc_work_f())), "work"@);
    lemma_get_seg("volunteer"@, list_val(v.volunteer.map_values(enc_volunteer_f())), "work"@);
    lemma_get_seg("education"@, list_val(v.education.map_values(enc_education_f())), "work"@);
    lemma_get_seg("awards"@, list_val(v.awards.map_values(enc_award_f())), "work"@);
    lemma_get_seg("certificates"@, list_val(v.certificates.map_values(enc_certificate_f())), "work"@);
    lemma_get_seg("publications"@, list_val(v.publications.map_values(enc_publication_f())), "work"@);
    lemma_get_seg("skills"@, list_val(v.skills.map_values(enc_skill_f())), "work"@);
    lemma_get_seg("languages"@, list_val(v.languages.map_values(enc_language_f())), "work"@);
    lemma_get_seg("interests"@, list_val(v.interests.map_values(enc_interest_f())), "work"@);
    lemma_get_seg("references"@, list_val(v.references.map_values(enc_reference_f())), "work"@);
    lemma_get_seg("projects"@, list_val(v.projects.map_values(enc_project_f())), "work"@);
    lemma_get_seg("sideProjects"@, list_val(v.side_projects.map_values(enc_project_f())), "work"@);
    lemma_get_seg("meta"@, (match v.meta { Option::Some(x) => Some(enc_meta(x)), Option::None => None }), "work"@);
    lemma_obj_get_append(p1, s2, "work"@);
    lemma_obj_get_append(p2, s3, "work"@);
    lemma_obj_get_append(p3, s4, "work"@);
    lemma_obj_get_append(p4, s5, "work"@);
    lemma_obj_get_append(p5, s6, "work"@);
    lemma_obj_get_append(p6, s7, "work"@);
    lemma_obj_get_append(p7, s8, "work"@);
    lemma_obj_get_append(p8, s9, "work"@);
    lemma_obj_get_append(p9, s10, "work"@);
    lemma_obj_get_append(p10, s11, "work"@);
    lemma_obj_get_append(p11, s12, "work"@);
    lemma_obj_get_append(p12, s13, "work"@);
    lemma_obj_get_append(p13, s14, "work"@);
    assert(enc_resume_fields(v) == p14);
}

/// Where the `volunteer` member of an encoded [`ResumeView`] stands.
#[verifier::rlimit(80)]
proof fn lemma_resume_member_volunteer(v: ResumeView)
    ensures
        jv_obj_get(enc_resume_fields(v), "volunteer"@) == list_val(v.volunteer.map_values(enc_volunteer_f())),
{
    reveal_strlit("awards");
    assert("awards"@.len() == 6);
    reveal_strlit("basics");
    assert("basics"@.len() == 6);
    reveal_strlit("certificates");
    assert("certificates"@.len() == 12);
    reveal_strlit("education");
    assert("education"@.len() == 9);
    reveal_strlit("interests");
    assert("interests"@.len() == 9);
    reveal_strlit("languages");
    assert("languages"@.len() == 9);
    reveal_strlit("meta");
    assert("meta"@.len() == 4);
    reveal_strlit("projects");
    assert("projects"@.len() == 8);
    reveal_strlit("publications");
    assert("publications"@.len() == 12);
    reveal_strlit("references");
    assert("references"@.len() == 10);
    reveal_strlit("sideProjects");
    assert("sideProjects"@.len() == 12);
    reveal_strlit("skills");
    assert("skills"@.len() == 6);
    reveal_strlit("volunteer");
    assert("volunteer"@.len() == 9);
    reveal_strlit("work");
    assert("work"@.len() == 4);
    assert("volunteer"@ != "basics"@);
    assert("volunteer"@ != "work"@);
    assert("volunteer"@[0] != "education"@[0]);
    assert("volunteer"@ != "education"@);
    assert("volunteer"@ != "awards"@);
    assert("volunteer"@ != "certificates"@);
    assert("volunteer"@ != "publications"@);
    assert("volunteer"@ != "skills"@);
    assert("volunteer"@[0] != "languages"@[0]);
    assert("volunteer"@ != "languages"@);
    assert("volunteer"@[0] != "interests"@[0]);
    assert("volunteer"@ != "interests"@);
    assert("volunteer"@ != "references"@);
    assert("volunteer"@ != "projects"@);
    assert("volunteer"@ != "sideProjects"@);
    assert("volunteer"@ != "meta"@);
    let s1 = seg("basics"@, (match v.basics { Option::Some(x) => Some(enc_basics(x)), Option::None => None }));
    let s2 = seg("work"@, list_val(v.work.map_values(enc_work_f())));
    let s3 = seg("volunteer"@, list_val(v.volunteer.map_values(enc_volunteer_f())));
    let s4 = seg("education"@, list_val(v.education.map_values(enc_education_f())));
    let s5 = seg("awards"@, list_val(v.awards.map_values(enc_award_f())));
    let s6 = seg("certificates"@, list_val(v.certificates.map_values(enc_certificate_f())));
    let s7 = seg("publications"@, list_val(v.publications.map_values(enc_publication_f())));
    let s8 = seg("skills"@, list_val(v.skills.map_values(enc_skill_f())));
    let s9 = seg("languages"@, list_val(v.languages.map_values(enc_language_f())));
    let s10 = seg("interests"@, list_val(v.interests.map_values(enc_interest_f())));
    let s11 = seg("references"@, list_val(v.references.map_values(enc_reference_f())));
    let s12 = seg("projects"@, list_val(v.projects.map_values(enc_project_f())));
    let s13 = seg("sideProjects"@, list_val(v.side_projects.map_values(enc_project_f())));
    let s14 = seg("meta"@, (match v.meta { Option::Some(x) => Some(enc_meta(x)), Option::None => None }));
    let p1 = s1;
    let p2 = p1 + s2;
    let p3 = p2 + s3;
    let p4 = p3 + s4;
    let p5 = p4 + s5;
    let p6 = p5 + s6;
    let p7 = p6 + s7;
    let p8 = p7 + s8;
    let p9 = p8 + s9;
    let p10 = p9 + s10;
    let p11 = p10 + s11;
    let p12 = p11 + s12;
    let p13 = p12 + s13;
    let p14 = p13 + s14;
    lemma_get_seg("basics"@, (match v.basics { Option::Some(x) => Some(enc_basics(x)), Option::None => None }), "volunteer"@);
    lemma_get_seg("work"@, list_val(v.work.map_values(enc_work_f())), "volunteer"@);
    lemma_get_seg("volunteer"@, list_val(v.volunteer.map_values(enc_volunteer_f())), "volunteer"@);
    lemma_get_seg("education"@, list_val(v.education.map_values(enc_education_f())), "volunteer"@);
    lemma_get_seg("awards"@, list_val(v.awards.map_values(enc_award_f())), "volunteer"@);
    lemma_get_seg("certificates"@, list_val(v.certificates.map_values(enc_certificate_f())), "volunteer"@);
    lemma_get_seg("publications"@, list_val(v.publications.map_values(enc_publication_f())), "volunteer"@);
    lemma_get_seg("skills"@, list_val(v.skills.map_values(enc_skill_f())), "volunteer"@);
    lemma_get_seg("languages"@, list_val(v.languages.map_values(enc_language_f())), "volunteer"@);
    lemma_get_seg("interests"@, list_val(v.interests.map_values(enc_interest_f())), "volunteer"@);
    lemma_get_seg("references"@, list_val(v.references.map_values(enc_reference_f())), "volunteer"@);
    lemma_get_seg("projects"@, list_val(v.projects.map_values(enc_project_f())), "volunteer"@);
    lemma_get_seg("sideProjects"@, list_val(v.side_projects.map_values(enc_project_f())), "volunteer"@);
    lemma_get_seg("meta"@, (match v.meta { Option::Some(x) => Some(enc_meta(x)), Option::None => None }), "volunteer"@);
    lemma_obj_get_append(p1, s2, "volunteer"@);
    lemma_obj_get_append(p2, s3, "volunteer"@);
    lemma_obj_get_append(p3, s4, "volunteer"@);
    lemma_obj_get_append(p4, s5, "volunteer"@);
    lemma_obj_get_append(p5, s6, "volunteer"@);
    lemma_obj_get_append(p6, s7, "volunteer"@);
    lemma_obj_get_append(p7, s8, "volunteer"@);
    lemma_obj_get_append(p8, s9, "volunteer"@);
    lemma_obj_get_append(p9, s10, "volunteer"@);
    lemma_obj_get_append(p10, s11, "volunteer"@);
    lemma_obj_get_append(p11, s12, "volunteer"@);
    lemma_obj_get_append(p12, s13, "volunteer"@);
    lemma_obj_get_append(p13, s14, "volunteer"@);
    assert(enc_resume_fields(v) == p14);
}

/// Where the `education` member of an encoded [`ResumeView`] stands.
#[verifier::rlimit(80)]
proof fn lemma_resume_member_education(v: ResumeView)
    ensures
        jv_obj_get(enc_resume_fields(v), "education"@) == list_val(v.education.map_values(enc_education_f())),
{
    reveal_strlit("awards");
    assert("awards"@.len() == 6);
    reveal_strlit("basics");
    assert("basics"@.len() == 6);
    reveal_strlit("certificates");
    assert("certificates"@.len() == 12);
    reveal_strlit("education");
    assert("education"@.len() == 9);
    reveal_strlit("interests");
    assert("interests"@.len() == 9);
    reveal_strlit("languages");
    assert("languages"@.len() == 9);
    reveal_strlit("meta");
    assert("meta"@.len() == 4);
    reveal_strlit("projects");
    assert("projects"@.len() == 8);
    reveal_strlit("publications");
    assert("publications"@.len() == 12);
    reveal_strlit("references");
    assert("references"@.len() == 10);
    reveal_strlit("sideProjects");
    assert("sideProjects"@.len() == 12);
    reveal_strlit("skills");
    assert("skills"@.len() == 6);
    reveal_strlit("volunteer");
    assert("volunteer"@.len() == 9);
    reveal_strlit("work");
    assert("work"@.len() == 4);
    assert("education"@ != "basics"@);
    assert("education"@ != "work"@);
    assert("education"@[0] != "volunteer"@[0]);
    assert("education"@ != "volunteer"@);
    assert("education"@ != "awards"@);
    assert("education"@ != "certificates"@);
    assert("education"@ != "publications"@);
    assert("education"@ != "skills"@);
    assert("education"@[0] != "languages"@[0]);
    assert("education"@ != "languages"@);
    assert("education"@[0] != "interests"@[0]);
    assert("education"@ != "interests"@);
    assert("education"@ != "references"@);
    assert("education"@ != "projects"@);
    assert("education"@ != "sideProjects"@);
    assert("education"@ != "meta"@);
    let s1 = seg("basics"@, (match v.basics { Option::Some(x) => Some(enc_basics(x)), Option::None => None }));
    let s2 = seg("work"@, list_val(v.work.map_values(enc_work_f())));
    let s3 = seg("volunteer"@, list_val(v.volunteer.map_values(enc_volunteer_f())));
    let s4 = seg("education"@, list_val(v.education.map_values(enc_education_f())));
    let s5 = seg("awards"@, list_val(v.awards.map_values(enc_award_f())));
    let s6 = seg("certificates"@, list_val(v.certificates.map_values(enc_certificate_f())));
    let s7 = seg("publications"@, list_val(v.publications.map_values(enc_publication_f())));
    let s8 = seg("skills"@, list_val(v.skills.map_values(enc_skill_f())));
    let s9 = seg("languages"@, list_val(v.languages.map_values(enc_language_f())));
    let s10 = seg("interests"@, list_val(v.interests.map_values(enc_interest_f())));
    let s11 = seg("references"@, list_val(v.references.map_values(enc_reference_f())));
    let s12 = seg("projects"@, list_val(v.projects.map_values(enc_project_f())));
    let s13 = seg("sideProjects"@, list_val(v.side_projects.map_values(enc_project_f())));
    let s14 = seg("meta"@, (match v.meta { Option::Some(x) => Some(enc_meta(x)), Option::None => None }));
    let p1 = s1;
    let p2 = p1 + s2;
    let p3 = p2 + s3;
    let p4 = p3 + s4;
    let p5 = p4 + s5;
    let p6 = p5 + s6;
    let p7 = p6 + s7;
    let p8 = p7 + s8;
    let p9 = p8 + s9;
    let p10 = p9 + s10;
    let p11 = p10 + s11;
    let p12 = p11 + s12;
    let p13 = p12 + s13;
    let p14 = p13 + s14;
    lemma_get_seg("basics"@, (match v.basics { Option::Some(x) => Some(enc_basics(x)), Option::None => None }), "education"@);
    lemma_get_seg("work"@, list_val(v.work.map_values(enc_work_f())), "education"@);
    lemma_get_seg("volunteer"@, list_val(v.volunteer.map_values(enc_volunteer_f())), "education"@);
    lemma_get_seg("education"@, list_val(v.education.map_values(enc_education_f())), "education"@);
    lemma_get_seg("awards"@, list_val(v.awards.map_values(enc_award_f())), "education"@);
    lemma_get_seg("certificates"@, list_val(v.certificates.map_values(enc_certificate_f())), "education"@);
    lemma_get_seg("publications"@, list_val(v.publications.map_values(enc_publication_f())), "education"@);
    lemma_get_seg("skills"@, list_val(v.skills.map_values(enc_skill_f())), "education"@);
    lemma_get_seg("languages"@, list_val(v.languages.map_values(enc_language_f())), "education"@);
    lemma_get_seg("interests"@, list_val(v.interests.map_values(enc_interest_f())), "education"@);
    lemma_get_seg("references"@, list_val(v.references.map_values(enc_reference_f())), "education"@);
    lemma_get_seg("projects"@, list_val(v.projects.map_values(enc_project_f())), "education"@);
    lemma_get_seg("sideProjects"@, list_val(v.side_projects.map_values(enc_project_f())), "education"@);
    lemma_get_seg("meta"@, (match v.meta { Option::Some(x) => Some(enc_meta(x)), Option::None => None }), "education"@);
    lemma_obj_get_append(p1, s2, "education"@);
    lemma_obj_get_append(p2, s3, "education"@);
    lemma_obj_get_append(p3, s4, "education"@);
    lemma_obj_get_append(p4, s5, "education"@);
    lemma_obj_get_append(p5, s6, "education"@);
    lemma_obj_get_append(p6, s7, "education"@);
    lemma_obj_get_append(p7, s8, "education"@);
    lemma_obj_get_append(p8, s9, "education"@);
    lemma_obj_get_append(p9, s10, "education"@);
    lemma_obj_get_append(p10, s11, "education"@);
    lemma_obj_get_append(p11, s12, "education"@);
    lemma_obj_get_append(p12, s13, "education"@);
    lemma_obj_get_append(p13, s14, "education"@);
    assert(enc_resume_fields(v) == p14);
}

/// Where the `awards` member of an encoded [`ResumeView`] stands.
#[verifier::rlimit(80)]
proof fn lemma_resume_member_awards(v: ResumeView)
    ensures
        jv_obj_get(enc_resume_fields(v), "awards"@) == list_val(v.awards.map_values(enc_award_f())),
{
    reveal_strlit("awards");
    assert("awards"@.len() == 6);
    reveal_strlit("basics");
    assert("basics"@.len() == 6);
    reveal_strlit("certificates");
    assert("certificates"@.len() == 12);
    reveal_strlit("education");
    assert("education"@.len() == 9);
    reveal_strlit("interests");
    assert("interests"@.len() == 9);
    reveal_strlit("languages");
    assert("languages"@.len() == 9);
    reveal_strlit("meta");
    assert("meta"@.len() == 4);
    reveal_strlit("projects");
    assert("projects"@.len() == 8);
    reveal_strlit("publications");
    assert("publications"@.len() == 12);
    reveal_strlit("references");
    assert("references"@.len() == 10);
    reveal_strlit("sideProjects");
    assert("sideProjects"@.len() == 12);
    reveal_strlit("skills");
    assert("skills"@.len() == 6);
    reveal_strlit("volunteer");
    assert("volunteer"@.len() == 9);
    reveal_strlit("work");
    assert("work"@.len() == 4);
    assert("awards"@[0] != "basics"@[0]);
    assert("awards"@ != "basics"@);
    assert("awards"@ != "work"@);
    assert("awards"@ != "volunteer"@);
    assert("awards"@ != "education"@);
    assert("awards"@ != "certificates"@);
    assert("awards"@ != "publications"@);
    assert("awards"@[0] != "skills"@[0]);
    assert("awards"@ != "skills"@);
    assert("awards"@ != "languages"@);
    assert("awards"@ != "interests"@);
    assert("awards"@ != "references"@);
    assert("awards"@ != "projects"@);
    assert("awards"@ != "sideProjects"@);
    assert("awards"@ != "meta"@);
    let s1 = seg("basics"@, (match v.basics { Option::Some(x) => Some(enc_basics(x)), Option::None => None }));
    let s2 = seg("work"@, list_val(v.work.map_values(enc_work_f())));
    let s3 = seg("volunteer"@, list_val(v.volunteer.map_values(enc_volunteer_f())));
    let s4 = seg("education"@, list_val(v.education.map_values(enc_education_f())));
    let s5 = seg("awards"@, list_val(v.awards.map_values(enc_award_f())));
    let s6 = seg("certificates"@, list_val(v.certificates.map_values(enc_certificate_f())));
    let s7 = seg("publications"@, list_val(v.publications.map_values(enc_publication_f())));
    let s8 = seg("skills"@, list_val(v.skills.map_values(enc_skill_f())));
    let s9 = seg("languages"@, list_val(v.languages.map_values(enc_language_f())));
    let s10 = seg("interests"@, list_val(v.interests.map_values(enc_interest_f())));
    let s11 = seg("references"@, list_val(v.references.map_values(enc_reference_f())));
    let s12 = seg("projects"@, list_val(v.projects.map_values(enc_project_f())));
    let s13 = seg("sideProjects"@, list_val(v.side_projects.map_values(enc_project_f())));
    let s14 = seg("meta"@, (match v.meta { Option::Some(x) => Some(enc_meta(x)), Option::None => None }));
    let p1 = s1;
    let p2 = p1 + s2;
    let p3 = p2 + s3;
    let p4 = p3 + s4;
    let p5 = p4 + s5;
    let p6 = p5 + s6;
    let p7 = p6 + s7;
    let p8 = p7 + s8;
    let p9 = p8 + s9;
    let p10 = p9 + s10;
    let p11 = p10 + s11;
    let p12 = p11 + s12;
    let p13 = p12 + s13;
    let p14 = p13 + s14;
    lemma_get_seg("basics"@, (match v.basics { Option::Some(x) => Some(enc_basics(x)), Option::None => None }), "awards"@);
    lemma_get_seg("work"@, list_val(v.work.map_values(enc_work_f())), "awards"@);
    lemma_get_seg("volunteer"@, list_val(v.volunteer.map_values(enc_volunteer_f())), "awards"@);
    lemma_get_seg("education"@, list_val(v.education.map_values(enc_education_f())), "awards"@);
    lemma_get_seg("awards"@, list_val(v.awards.map_values(enc_award_f())), "awards"@);
    lemma_get_seg("certificates"@, list_val(v.certificates.map_values(enc_certificate_f())), "awards"@);
    lemma_get_seg("publications"@, list_val(v.publications.map_values(enc_publication_f())), "awards"@);
    lemma_get_seg("skills"@, list_val(v.skills.map_values(enc_skill_f())), "awards"@);
    lemma_get_seg("languages"@, list_val(v.languages.map_values(enc_language_f())), "awards"@);
    lemma_get_seg("interests"@, list_val(v.interests.map_values(enc_interest_f())), "awards"@);
    lemma_get_seg("references"@, list_val(v.references.map_values(enc_reference_f())), "awards"@);
    lemma_get_seg("projects"@, list_val(v.projects.map_values(enc_project_f())), "awards"@);
    lemma_get_seg("sideProjects"@, list_val(v.side_projects.map_values(enc_project_f())), "awards"@);
    lemma_get_seg("meta"@, (match v.meta { Option::Some(x) => Some(enc_meta(x)), Option::None => None }), "awards"@);
    lemma_obj_get_append(p1, s2, "awards"@);
    lemma_obj_get_append(p2, s3, "awards"@);
    lemma_obj_get_append(p3, s4, "awards"@);
    lemma_obj_get_append(p4, s5, "awards"@);
    lemma_obj_get_append(p5, s6, "awards"@);
    lemma_obj_get_append(p6, s7, "awards"@);
    lemma_obj_get_append(p7, s8, "awards"@);
    lemma_obj_get_append(p8, s9, "awards"@);
    lemma_obj_get_append(p9, s10, "awards"@);
    lemma_obj_get_append(p10, s11, "awards"@);
    lemma_obj_get_append(p11, s12, "awards"@);
    lemma_obj_get_append(p12, s13, "awards"@);
    lemma_obj_get_append(p13, s14, "awards"@);
    assert(enc_resume_fields(v) == p14);
}

/// Where the `certificates` member of an encoded [`ResumeView`] stands.
#[verifier::rlimit(80)]
proof fn lemma_resume_member_certificates(v: ResumeView)
    ensures
        jv_obj_get(enc_resume_fields(v), "certificates"@) == list_val(v.certificates.map_values(enc_certificate_f())),
{
    reveal_strlit("awards");
    assert("awards"@.len() == 6);
    reveal_strlit("basics");
    assert("basics"@.len() == 6);
    reveal_strlit("certificates");
    assert("certificates"@.len() == 12);
    reveal_strlit("education");
    assert("education"@.len() == 9);
    reveal_strlit("interests");
    assert("interests"@.len() == 9);
    reveal_strlit("languages");
    assert("languages"@.len() == 9);
    reveal_strlit("meta");
    assert("meta"@.len() == 4);
    reveal_strlit("projects");
    assert("projects"@.len() == 8);
    reveal_strlit("publications");
    assert("publications"@.len() == 12);
    reveal_strlit("references");
    assert("references"@.len() == 10);
    reveal_strlit("sideProjects");
    assert("sideProjects"@.len() == 12);
    reveal_strlit("skills");
    assert("skills"@.len() == 6);
    reveal_strlit("volunteer");
    assert("volunteer"@.len() == 9);
    reveal_strlit("work");
    assert("work"@.len() == 4);
    assert("certificates"@ != "basics"@);
    assert("certificates"@ != "work"@);
    assert("certificates"@ != "volunteer"@);
    assert("certificates"@ != "education"@);
    assert("certificates"@ != "awards"@);
    assert("certificates"@[0] != "publications"@[0]);
    assert("certificates"@ != "publications"@);
    assert("certificates"@ != "skills"@);
    assert("certificates"@ != "languages"@);
    assert("certificates"@ != "interests"@);
    assert("certificates"@ != "references"@);
    assert("certificates"@ != "projects"@);
    assert("certificates"@[0] != "sideProjects"@[0]);
    assert("certificates"@ != "sideProjects"@);
    assert("certificates"@ != "meta"@);
    let s1 = seg("basics"@, (match v.basics { Option::Some(x) => Some(enc_basics(x)), Option::None => None }));
    let s2 = seg("work"@, list_val(v.work.map_values(enc_work_f())));
    let s3 = seg("volunteer"@, list_val(v.volunteer.map_values(enc_volunteer_f())));
    let s4 = seg("education"@, list_val(v.education.map_values(enc_education_f())));
    let s5 = seg("awards"@, list_val(v.awards.map_values(enc_award_f())));
    let s6 = seg("certificates"@, list_val(v.certificates.map_values(enc_certificate_f())));
    let s7 = seg("publications"@, list_val(v.publications.map_values(enc_publication_f())));
    let s8 = seg("skills"@, list_val(v.skills.map_values(enc_skill_f())));
    let s9 = seg("languages"@, list_val(v.languages.map_values(enc_language_f())));
    let s10 = seg("interests"@, list_val(v.interests.map_values(enc_interest_f())));
    let s11 = seg("references"@, list_val(v.references.map_values(enc_reference_f())));
    let s12 = seg("projects"@, list_val(v.projects.map_values(enc_project_f())));
    let s13 = seg("sideProjects"@, list_val(v.side_projects.map_values(enc_project_f())));
    let s14 = seg("meta"@, (match v.meta { Option::Some(x) => Some(enc_meta(x)), Option::None => None }));
    let p1 = s1;
    let p2 = p1 + s2;
    let p3 = p2 + s3;
    let p4 = p3 + s4;
    let p5 = p4 + s5;
    let p6 = p5 + s6;
    let p7 = p6 + s7;
    let p8 = p7 + s8;
    let p9 = p8 + s9;
    let p10 = p9 + s10;
    let p11 = p10 + s11;
    let p12 = p11 + s12;
    let p13 = p12 + s13;
    let p14 = p13 + s14;
    lemma_get_seg("basics"@, (match v.basics { Option::Some(x) => Some(enc_basics(x)), Option::None => None }), "certificates"@);
    lemma_get_seg("work"@, list_val(v.work.map_values(enc_work_f())), "certificates"@);
    lemma_get_seg("volunteer"@, list_val(v.volunteer.map_values(enc_volunteer_f())), "certificates"@);
    lemma_get_seg("education"@, list_val(v.education.map_values(enc_education_f())), "certificates"@);
    lemma_get_seg("awards"@, list_val(v.awards.map_values(enc_award_f())), "certificates"@);
    lemma_get_seg("certificates"@, list_val(v.certificates.map_values(enc_certificate_f())), "certificates"@);
    lemma_get_seg("publications"@, list_val(v.publications.map_values(enc_publication_f())), "certificates"@);
    lemma_get_seg("skills"@, list_val(v.skills.map_values(enc_skill_f())), "certificates"@);
    lemma_get_seg("languages"@, list_val(v.languages.map_values(enc_language_f())), "certificates"@);
    lemma_get_seg("interests"@, list_val(v.interests.map_values(enc_interest_f())), "certificates"@);
    lemma_get_seg("references"@, list_val(v.references.map_values(enc_reference_f())), "certificates"@);
    lemma_get_seg("projects"@, list_val(v.projects.map_values(enc_project_f())), "certificates"@);
    lemma_get_seg("sideProjects"@, list_val(v.side_projects.map_values(enc_project_f())), "certificates"@);
    lemma_get_seg("meta"@, (match v.meta { Option::Some(x) => Some(enc_meta(x)), Option::None => None }), "certificates"@);
    lemma_obj_get_append(p1, s2, "certificates"@);
    lemma_obj_get_append(p2, s3, "certificates"@);
    lemma_obj_get_append(p3, s4, "certificates"@);
    lemma_obj_get_append(p4, s5, "certificates"@);
    lemma_obj_get_append(p5, s6, "certificates"@);
    lemma_obj_get_append(p6, s7, "certificates"@);
    lemma_obj_get_append(p7, s8, "certificates"@);
    lemma_obj_get_append(p8, s9, "certificates"@);
    lemma_obj_get_append(p9, s10, "certificates"@);
    lemma_obj_get_append(p10, s11, "certificates"@);
    lemma_obj_get_append(p11, s12, "certificates"@);
    lemma_obj_get_append(p12, s13, "certificates"@);
    lemma_obj_get_append(p13, s14, "certificates"@);
    assert(enc_resume_fields(v) == p14);
}

/// Where the `publications` member of an encoded [`ResumeView`] stands.
#[verifier::rlimit(80)]
proof fn lemma_resume_member_publications(v: ResumeView)
    ensures
        jv_obj_get(enc_resume_fields(v), "publications"@) == list_val(v.publications.map_values(enc_publication_f())),
{
    reveal_strlit("awards");
    assert("awards"@.len() == 6);
    reveal_strlit("basics");
    assert("basics"@.len() == 6);
    reveal_strlit("certificates");
    assert("certificates"@.len() == 12);
    reveal_strlit("education");
    assert("education"@.len() == 9);
    reveal_strlit("interests");
    assert("interests"@.len() == 9);
    reveal_strlit("languages");
    assert("languages"@.len() == 9);
    reveal_strlit("meta");
    assert("meta"@.len() == 4);
    reveal_strlit("projects");
    assert("projects"@.len() == 8);
    reveal_strlit("publications");
    assert("publications"@.len() == 12);
    reveal_strlit("references");
    assert("references"@.len() == 10);
    reveal_strlit("sideProjects");
    assert("sideProjects"@.len() == 12);
    reveal_strlit("skills");
    assert("skills"@.len() == 6);
    reveal_strlit("volunteer");
    assert("volunteer"@.len() == 9);
    reveal_strlit("work");
    assert("work"@.len() == 4);
    assert("publications"@ != "basics"@);
    assert("publications"@ != "work"@);
    assert("publications"@ != "volunteer"@);
    assert("publications"@ != "education"@);
    assert("publications"@ != "awards"@);
    assert("publications"@[0] != "certificates"@[0]);
    assert("publications"@ != "certificates"@);
    assert("publications"@ != "skills"@);
    assert("publications"@ != "languages"@);
    assert("publications"@ != "interests"@);
    assert("publications"@ != "references"@);
    assert("publications"@ != "projects"@);
    assert("publications"@[0] != "sideProjects"@[0]);
    assert("publications"@ != "sideProjects"@);
    assert("publications"@ != "meta"@);
    let s1 = seg("basics"@, (match v.basics { Option::Some(x) => Some(enc_basics(x)), Option::None => None }));
    let s2 = seg("work"@, list_val(v.work.map_values(enc_work_f())));
    let s3 = seg("volunteer"@, list_val(v.volunteer.map_values(enc_volunteer_f())));
    let s4 = seg("education"@, list_val(v.education.map_values(enc_education_f())));
    let s5 = seg("awards"@, list_val(v.awards.map_values(enc_award_f())));
    let s6 = seg("certificates"@, list_val(v.certificates.map_values(enc_certificate_f())));
    let s7 = seg("publications"@, list_val(v.publications.map_values(enc_publication_f())));
    let s8 = seg("skills"@, list_val(v.skills.map_values(enc_skill_f())));
    let s9 = seg("languages"@, list_val(v.languages.map_values(enc_language_f())));
    let s10 = seg("interests"@, list_val(v.interests.map_values(enc_interest_f())));
    let s11 = seg("references"@, list_val(v.references.map_values(enc_reference_f())));
    let s12 = seg("projects"@, list_val(v.projects.map_values(enc_project_f())));
    let s13 = seg("sideProjects"@, list_val(v.side_projects.map_values(enc_project_f())));
    let s14 = seg("meta"@, (match v.meta { Option::Some(x) => Some(enc_meta(x)), Option::None => None }));
    let p1 = s1;
    let p2 = p1 + s2;
    let p3 = p2 + s3;
    let p4 = p3 + s4;
    let p5 = p4 + s5;
    let p6 = p5 + s6;
    let p7 = p6 + s7;
    let p8 = p7 + s8;
    let p9 = p8 + s9;
    let p10 = p9 + s10;
    let p11 = p10 + s11;
    let p12 = p11 + s12;
    let p13 = p12 + s13;
    let p14 = p13 + s14;
    lemma_get_seg("basics"@, (match v.basics { Option::Some(x) => Some(enc_basics(x)), Option::None => None }), "publications"@);
    lemma_get_seg("work"@, list_val(v.work.map_values(enc_work_f())), "publications"@);
    lemma_get_seg("volunteer"@, list_val(v.volunteer.map_values(enc_volunteer_f())), "publications"@);
    lemma_get_seg("education"@, list_val(v.education.map_values(enc_education_f())), "publications"@);
    lemma_get_seg("awards"@, list_val(v.awards.map_values(enc_award_f())), "publications"@);
    lemma_get_seg("certificates"@, list_val(v.certificates.map_values(enc_certificate_f())), "publications"@);
    lemma_get_seg("publications"@, list_val(v.publications.map_values(enc_publication_f())), "publications"@);
    lemma_get_seg("skills"@, list_val(v.skills.map_values(enc_skill_f())), "publications"@);
    lemma_get_seg("languages"@, list_val(v.languages.map_values(enc_language_f())), "publications"@);
    lemma_get_seg("interests"@, list_val(v.interests.map_values(enc_interest_f())), "publications"@);
    lemma_get_seg("references"@, list_val(v.references.map_values(enc_reference_f())), "publications"@);
    lemma_get_seg("projects"@, list_val(v.projects.map_values(enc_project_f())), "publications"@);
    lemma_get_seg("sideProjects"@, list_val(v.side_projects.map_values(enc_project_f())), "publications"@);
    lemma_get_seg("meta"@, (match v.meta { Option::Some(x) => Some(enc_meta(x)), Option::None => None }), "publications"@);
    lemma_obj_get_append(p1, s2, "publications"@);
    lemma_obj_get_append(p2, s3, "publications"@);
    lemma_obj_get_append(p3, s4, "publications"@);
    lemma_obj_get_append(p4, s5, "publications"@);
    lemma_obj_get_append(p5, s6, "publications"@);
    lemma_obj_get_append(p6, s7, "publications"@);
    lemma_obj_get_append(p7, s8, "publications"@);
    lemma_obj_get_append(p8, s9, "publications"@);
    lemma_obj_get_append(p9, s10, "publications"@);
    lemma_obj_get_append(p10, s11, "publications"@);
    lemma_obj_get_append(p11, s12, "publications"@);
    lemma_obj_get_append(p12, s13, "publications"@);
    lemma_obj_get_append(p13, s14, "publications"@);
    assert(enc_resume_fields(v) == p14);
}

/// Where the `skills` member of an encoded [`ResumeView`] stands.
#[verifier::rlimit(80)]
proof fn lemma_resume_member_skills(v: ResumeView)
    ensures
        jv_obj_get(enc_resume_fields(v), "skills"@) == list_val(v.skills.map_values(enc_skill_f())),
{
    reveal_strlit("awards");
    assert("awards"@.len() == 6);
    reveal_strlit("basics");
    assert("basics"@.len() == 6);
    reveal_strlit("certificates");
    assert("certificates"@.len() == 12);
    reveal_strlit("education");
    assert("education"@.len() == 9);
    reveal_strlit("interests");
    assert("interests"@.len() == 9);
    reveal_strlit("languages");
    assert("languages"@.len() == 9);
    reveal_strlit("meta");
    assert("meta"@.len() == 4);
    reveal_strlit("projects");
    assert("projects"@.len() == 8);
    reveal_strlit("publications");
    assert("publications"@.len() == 12);
    reveal_strlit("references");
    assert("references"@.len() == 10);
    reveal_strlit("sideProjects");
    assert("sideProjects"@.len() == 12);
    reveal_strlit("skills");
    assert("skills"@.len() == 6);
    reveal_strlit("volunteer");
    assert("volunteer"@.len() == 9);
    reveal_strlit("work");
    assert("work"@.len() == 4);
    assert("skills"@[0] != "basics"@[0]);
    assert("skills"@ != "basics"@);
    assert("skills"@ != "work"@);
    assert("skills"@ != "volunteer"@);
    assert("skills"@ != "education"@);
    assert("skills"@[0] != "awards"@[0]);
    assert("skills"@ != "awards"@);
    assert("skills"@ != "certificates"@);
    assert("skills"@ != "publications"@);
    assert("skills"@ != "languages"@);
    assert("skills"@ != "interests"@);
    assert("skills"@ != "references"@);
    assert("skills"@ != "projects"@);
    assert("skills"@ != "sideProjects"@);
    assert("skills"@ != "meta"@);
    let s1 = seg("basics"@, (match v.basics { Option::Some(x) => Some(enc_basics(x)), Option::None => None }));
    let s2 = seg("work"@, list_val(v.work.map_values(enc_work_f())));
    let s3 = seg("volunteer"@, list_val(v.volunteer.map_values(enc_volunteer_f())));
    let s4 = seg("education"@, list_val(v.education.map_values(enc_education_f())));
    let s5 = seg("awards"@, list_val(v.awards.map_values(enc_award_f())));
    let s6 = seg("certificates"@, list_val(v.certificates.map_values(enc_certificate_f())));
    let s7 = seg("publications"@, list_val(v.publications.map_values(enc_publication_f())));
    let s8 = seg("skills"@, list_val(v.skills.map_values(enc_skill_f())));
    let s9 = seg("languages"@, list_val(v.languages.map_values(enc_language_f())));
    let s10 = seg("interests"@, list_val(v.interests.map_values(enc_interest_f())));
    let s11 = seg("references"@, list_val(v.references.map_values(enc_reference_f())));
    let s12 = seg("projects"@, list_val(v.projects.map_values(enc_project_f())));
    let s13 = seg("sideProjects"@, list_val(v.side_projects.map_values(enc_project_f())));
    let s14 = seg("meta"@, (match v.meta { Option::Some(x) => Some(enc_meta(x)), Option::None => None }));
    let p1 = s1;
    let p2 = p1 + s2;
    let p3 = p2 + s3;
    let p4 = p3 + s4;
    let p5 = p4 + s5;
    let p6 = p5 + s6;
    let p7 = p6 + s7;
    let p8 = p7 + s8;
    let p9 = p8 + s9;
    let p10 = p9 + s10;
    let p11 = p10 + s11;
    let p12 = p11 + s12;
    let p13 = p12 + s13;
    let p14 = p13 + s14;
    lemma_get_seg("basics"@, (match v.basics { Option::Some(x) => Some(enc_basics(x)), Option::None => None }), "skills"@);
    lemma_get_seg("work"@, list_val(v.work.map_values(enc_work_f())), "skills"@);
    lemma_get_seg("volunteer"@, list_val(v.volunteer.map_values(enc_volunteer_f())), "skills"@);
    lemma_get_seg("education"@, list_val(v.education.map_values(enc_education_f())), "skills"@);
    lemma_get_seg("awards"@, list_val(v.awards.map_values(enc_award_f())), "skills"@);
    lemma_get_seg("certificates"@, list_val(v.certificates.map_values(enc_certificate_f())), "skills"@);
    lemma_get_seg("publications"@, list_val(v.publications.map_values(enc_publication_f())), "skills"@);
    lemma_get_seg("skills"@, list_val(v.skills.map_values(enc_skill_f())), "skills"@);
    lemma_get_seg("languages"@, list_val(v.languages.map_values(enc_language_f())), "skills"@);
    lemma_get_seg("interests"@, list_val(v.interests.map_values(enc_interest_f())), "skills"@);
    lemma_get_seg("references"@, list_val(v.references.map_values(enc_reference_f())), "skills"@);
    lemma_get_seg("projects"@, list_val(v.projects.map_values(enc_project_f())), "skills"@);
    lemma_get_seg("sideProjects"@, list_val(v.side_projects.map_values(enc_project_f())), "skills"@);
    lemma_get_seg("meta"@, (match v.meta { Option::Some(x) => Some(enc_meta(x)), Option::None => None }), "skills"@);
    lemma_obj_get_append(p1, s2, "skills"@);
    lemma_obj_get_append(p2, s3, "skills"@);
    lemma_obj_get_append(p3, s4, "skills"@);
    lemma_obj_get_append(p4, s5, "skills"@);
    lemma_obj_get_append(p5, s6, "skills"@);
    lemma_obj_get_append(p6, s7, "skills"@);
    lemma_obj_get_append(p7, s8, "skills"@);
    lemma_obj_get_append(p8, s9, "skills"@);
    lemma_obj_get_append(p9, s10, "skills"@);
    lemma_obj_get_append(p10, s11, "skills"@);
    lemma_obj_get_append(p11, s12, "skills"@);
    lemma_obj_get_append(p12, s13, "skills"@);
    lemma_obj_get_append(p13, s14, "skills"@);
    assert(enc_resume_fields(v) == p14);
}

/// Where the `languages` member of an encoded [`ResumeView`] stands.
#[verifier::rlimit(80)]
proof fn lemma_resume_member_languages(v: ResumeView)
    ensures
        jv_obj_get(enc_resume_fields(v), "languages"@) == list_val(v.languages.map_values(enc_language_f())),
{
    reveal_strlit("awards");
    assert("awards"@.len() == 6);
    reveal_strlit("basics");
    assert("basics"@.len() == 6);
    reveal_strlit("certificates");
    assert("certificates"@.len() == 12);
    reveal_strlit("education");
    assert("education"@.len() == 9);
    reveal_strlit("interests");
    assert("interests"@.len() == 9);
    reveal_strlit("languages");
    assert("languages"@.len() == 9);
    reveal_strlit("meta");
    assert("meta"@.len() == 4);
    reveal_strlit("projects");
    assert("projects"@.len() == 8);
    reveal_strlit("publications");
    assert("publications"@.len() == 12);
    reveal_strlit("references");
    assert("references"@.len() == 10);
    reveal_strlit("sideProjects");
    assert("sideProjects"@.len() == 12);
    reveal_strlit("skills");
    assert("skills"@.len() == 6);
    reveal_strlit("volunteer");
    assert("volunteer"@.len() == 9);
    reveal_strlit("work");
    assert("work"@.len() == 4);
    assert("languages"@ != "basics"@);
    assert("languages"@ != "work"@);
    assert("languages"@[0] != "volunteer"@[0]);
    assert("languages"@ != "volunteer"@);
    assert("languages"@[0] != "education"@[0]);
    assert("languages"@ != "education"@);
    assert("languages"@ != "awards"@);
    assert("languages"@ != "certificates"@);
    assert("languages"@ != "publications"@);
    assert("languages"@ != "skills"@);
    assert("languages"@[0] != "interests"@[0]);
    assert("languages"@ != "interests"@);
    assert("languages"@ != "references"@);
    assert("languages"@ != "projects"@);
    assert("languages"@ != "sideProjects"@);
    assert("languages"@ != "meta"@);
    let s1 = seg("basics"@, (match v.basics { Option::Some(x) => Some(enc_basics(x)), Option::None => None }));
    let s2 = seg("work"@, list_val(v.work.map_values(enc_work_f())));
    let s3 = seg("volunteer"@, list_val(v.volunteer.map_values(enc_volunteer_f())));
    let s4 = seg("education"@, list_val(v.education.map_values(enc_education_f())));
    let s5 = seg("awards"@, list_val(v.awards.map_values(enc_award_f())));
    let s6 = seg("certificates"@, list_val(v.certificates.map_values(enc_certificate_f())));
    let s7 = seg("publications"@, list_val(v.publications.map_values(enc_publication_f())));
    let s8 = seg("skills"@, list_val(v.skills.map_values(enc_skill_f())));
    let s9 = seg("languages"@, list_val(v.languages.map_values(enc_language_f())));
    let s10 = seg("interests"@, list_val(v.interests.map_values(enc_interest_f())));
    let s11 = seg("references"@, list_val(v.references.map_values(enc_reference_f())));
    let s12 = seg("projects"@, list_val(v.projects.map_values(enc_project_f())));
    let s13 = seg("sideProjects"@, list_val(v.side_projects.map_values(enc_project_f())));
    let s14 = seg("meta"@, (match v.meta { Option::Some(x) => Some(enc_meta(x)), Option::None => None }));
    let p1 = s1;
    let p2 = p1 + s2;
    let p3 = p2 + s3;
    let p4 = p3 + s4;
    let p5 = p4 + s5;
    let p6 = p5 + s6;
    let p7 = p6 + s7;
    let p8 = p7 + s8;
    let p9 = p8 + s9;
    let p10 = p9 + s10;
    let p11 = p10 + s11;
    let p12 = p11 + s12;
    let p13 = p12 + s13;
    let p14 = p13 + s14;
    lemma_get_seg("basics"@, (match v.basics { Option::Some(x) => Some(enc_basics(x)), Option::None => None }), "languages"@);
    lemma_get_seg("work"@, list_val(v.work.map_values(enc_work_f())), "languages"@);
    lemma_get_seg("volunteer"@, list_val(v.volunteer.map_values(enc_volunteer_f())), "languages"@);
    lemma_get_seg("education"@, list_val(v.education.map_values(enc_education_f())), "languages"@);
    lemma_get_seg("awards"@, list_val(v.awards.map_values(enc_award_f())), "languages"@);
    lemma_get_seg("certificates"@, list_val(v.certificates.map_values(enc_certificate_f())), "languages"@);
    lemma_get_seg("publications"@, list_val(v.publications.map_values(enc_publication_f())), "languages"@);
    lemma_get_seg("skills"@, list_val(v.skills.map_values(enc_skill_f())), "languages"@);
    lemma_get_seg("languages"@, list_val(v.languages.map_values(enc_language_f())), "languages"@);
    lemma_get_seg("interests"@, list_val(v.interests.map_values(enc_interest_f())), "languages"@);
    lemma_get_seg("references"@, list_val(v.references.map_values(enc_reference_f())), "languages"@);
    lemma_get_seg("projects"@, list_val(v.projects.map_values(enc_project_f())), "languages"@);
    lemma_get_seg("sideProjects"@, list_val(v.side_projects.map_values(enc_project_f())), "languages"@);
    lemma_get_seg("meta"@, (match v.meta { Option::Some(x) => Some(enc_meta(x)), Option::None => None }), "languages"@);
    lemma_obj_get_append(p1, s2, "languages"@);
    lemma_obj_get_append(p2, s3, "languages"@);
    lemma_obj_get_append(p3, s4, "languages"@);
    lemma_obj_get_append(p4, s5, "languages"@);
    lemma_obj_get_append(p5, s6, "languages"@);
    lemma_obj_get_append(p6, s7, "languages"@);
    lemma_obj_get_append(p7, s8, "languages"@);
    lemma_obj_get_append(p8, s9, "languages"@);
    lemma_obj_get_append(p9, s10, "languages"@);
    lemma_obj_get_append(p10, s11, "languages"@);
    lemma_obj_get_append(p11, s12, "languages"@);
    lemma_obj_get_append(p12, s13, "languages"@);
    lemma_obj_get_append(p13, s14, "languages"@);
    assert(enc_resume_fields(v) == p14);
}

/// Where the `interests` member of an encoded [`ResumeView`] stands.
#[verifier::rlimit(80)]
proof fn lemma_resume_member_interests(v: ResumeView)
    ensures
        jv_obj_get(enc_resume_fields(v), "interests"@) == list_val(v.interests.map_values(enc_interest_f())),
{
    reveal_strlit("awards");
    assert("awards"@.len() == 6);
    reveal_strlit("basics");
    assert("basics"@.len() == 6);
    reveal_strlit("certificates");
    assert("certificates"@.len() == 12);
    reveal_strlit("education");
    assert("education"@.len() == 9);
    reveal_strlit("interests");
    assert("interests"@.len() == 9);
    reveal_strlit("languages");
    assert("languages"@.len() == 9);
    reveal_strlit("meta");
    assert("meta"@.len() == 4);
    reveal_strlit("projects");
    assert("projects"@.len() == 8);
    reveal_strlit("publications");
    assert("publications"@.len() == 12);
    reveal_strlit("references");
    assert("references"@.len() == 10);
    reveal_strlit("sideProjects");
    assert("sideProjects"@.len() == 12);
    reveal_strlit("skills");
    assert("skills"@.len() == 6);
    reveal_strlit("volunteer");
    assert("volunteer"@.len() == 9);
    reveal_strlit("work");
    assert("work"@.len() == 4);
    assert("interests"@ != "basics"@);
    assert("interests"@ != "work"@);
    assert("interests"@[0] != "volunteer"@[0]);
    assert("interests"@ != "volunteer"@);
    assert("interests"@[0] != "education"@[0]);
    assert("interests"@ != "education"@);
    assert("interests"@ != "awards"@);
    assert("interests"@ != "certificates"@);
    assert("interests"@ != "publications"@);
    assert("interests"@ != "skills"@);
    assert("interests"@[0] != "languages"@[0]);
    assert("interests"@ != "languages"@);
    assert("interests"@ != "references"@);
    assert("interests"@ != "projects"@);
    assert("interests"@ != "sideProjects"@);
    assert("interests"@ != "meta"@);
    let s1 = seg("basics"@, (match v.basics { Option::Some(x) => Some(enc_basics(x)), Option::None => None }));
    let s2 = seg("work"@, list_val(v.work.map_values(enc_work_f())));
    let s3 = seg("volunteer"@, list_val(v.volunteer.map_values(enc_volunteer_f())));
    let s4 = seg("education"@, list_val(v.education.map_values(enc_education_f())));
    let s5 = seg("awards"@, list_val(v.awards.map_values(enc_award_f())));
    let s6 = seg("certificates"@, list_val(v.certificates.map_values(enc_certificate_f())));
    let s7 = seg("publications"@, list_val(v.publications.map_values(enc_publication_f())));
    let s8 = seg("skills"@, list_val(v.skills.map_values(enc_skill_f())));
    let s9 = seg("languages"@, list_val(v.languages.map_values(enc_language_f())));
    let s10 = seg("interests"@, list_val(v.interests.map_values(enc_interest_f())));
    let s11 = seg("references"@, list_val(v.references.map_values(enc_reference_f())));
    let s12 = seg("projects"@, list_val(v.projects.map_values(enc_project_f())));
    let s13 = seg("sideProjects"@, list_val(v.side_projects.map_values(enc_project_f())));
    let s14 = seg("meta"@, (match v.meta { Option::Some(x) => Some(enc_meta(x)), Option::None => None }));
    let p1 = s1;
    let p2 = p1 + s2;
    let p3 = p2 + s3;
    let p4 = p3 + s4;
    let p5 = p4 + s5;
    let p6 = p5 + s6;
    let p7 = p6 + s7;
    let p8 = p7 + s8;
    let p9 = p8 + s9;
    let p10 = p9 + s10;
    let p11 = p10 + s11;
    let p12 = p11 + s12;
    let p13 = p12 + s13;
    let p14 = p13 + s14;
    lemma_get_seg("basics"@, (match v.basics { Option::Some(x) => Some(enc_basics(x)), Option::None => None }), "interests"@);
    lemma_get_seg("work"@, list_val(v.work.map_values(enc_work_f())), "interests"@);
    lemma_get_seg("volunteer"@, list_val(v.volunteer.map_values(enc_volunteer_f())), "interests"@);
    lemma_get_seg("education"@, list_val(v.education.map_values(enc_education_f())), "interests"@);
    lemma_get_seg("awards"@, list_val(v.awards.map_values(enc_award_f())), "interests"@);
    lemma_get_seg("certificates"@, list_val(v.certificates.map_values(enc_certificate_f())), "interests"@);
    lemma_get_seg("publications"@, list_val(v.publications.map_values(enc_publication_f())), "interests"@);
    lemma_get_seg("skills"@, list_val(v.skills.map_values(enc_skill_f())), "interests"@);
    lemma_get_seg("languages"@, list_val(v.languages.map_values(enc_language_f())), "interests"@);
    lemma_get_seg("interests"@, list_val(v.interests.map_values(enc_interest_f())), "interests"@);
    lemma_get_seg("references"@, list_val(v.references.map_values(enc_reference_f())), "interests"@);
    lemma_get_seg("projects"@, list_val(v.projects.map_values(enc_project_f())), "interests"@);
    lemma_get_seg("sideProjects"@, list_val(v.side_projects.map_values(enc_project_f())), "interests"@);
    lemma_get_seg("meta"@, (match v.meta { Option::Some(x) => Some(enc_meta(x)), Option::None => None }), "interests"@);
    lemma_obj_get_append(p1, s2, "interests"@);
    lemma_obj_get_append(p2, s3, "interests"@);
    lemma_obj_get_append(p3, s4, "interests"@);
    lemma_obj_get_append(p4, s5, "interests"@);
    lemma_obj_get_append(p5, s6, "interests"@);
    lemma_obj_get_append(p6, s7, "interests"@);
    lemma_obj_get_append(p7, s8, "interests"@);
    lemma_obj_get_append(p8, s9, "interests"@);
    lemma_obj_get_append(p9, s10, "interests"@);
    lemma_obj_get_append(p10, s11, "interests"@);
    lemma_obj_get_append(p11, s12, "interests"@);
    lemma_obj_get_append(p12, s13, "interests"@);
    lemma_obj_get_append(p13, s14, "interests"@);
    assert(enc_resume_fields(v) == p14);
}

/// Where the `references` member of an encoded [`ResumeView`] stands.
#[verifier::rlimit(80)]
proof fn lemma_resume_member_references(v: ResumeView)
    ensures
        jv_obj_get(enc_resume_fields(v), "references"@) == list_val(v.references.map_values(enc_reference_f())),
{
    reveal_strlit("awards");
    assert("awards"@.len() == 6);
    reveal_strlit("basics");
    assert("basics"@.len() == 6);
    reveal_strlit("certificates");
    assert("certificates"@.len() == 12);
    reveal_strlit("education");
    assert("education"@.len() == 9);
    reveal_strlit("interests");
    assert("interests"@.len() == 9);
    reveal_strlit("languages");
    assert("languages"@.len() == 9);
    reveal_strlit("meta");
    assert("meta"@.len() == 4);
    reveal_strlit("projects");
    assert("projects"@.len() == 8);
    reveal_strlit("publications");
    assert("publications"@.len() == 12);
    reveal_strlit("references");
    assert("references"@.len() == 10);
    reveal_strlit("sideProjects");
    assert("sideProjects"@.len() == 12);
    reveal_strlit("skills");
    assert("skills"@.len() == 6);
    reveal_strlit("volunteer");
    assert("volunteer"@.len() == 9);
    reveal_strlit("work");
    assert("work"@.len() == 4);
    assert("references"@ != "basics"@);
    assert("references"@ != "work"@);
    assert("references"@ != "volunteer"@);
    assert("references"@ != "education"@);
    assert("references"@ != "awards"@);
    assert("references"@ != "certificates"@);
    assert("references"@ != "publications"@);
    assert("references"@ != "skills"@);
    assert("references"@ != "languages"@);
    assert("references"@ != "interests"@);
    assert("references"@ != "projects"@);
    assert("references"@ != "sideProjects"@);
    assert("references"@ != "meta"@);
    let s1 = seg("basics"@, (match v.basics { Option::Some(x) => Some(enc_basics(x)), Option::None => None }));
    let s2 = seg("work"@, list_val(v.work.map_values(enc_work_f())));
    let s3 = seg("volunteer"@, list_val(v.volunteer.map_values(enc_volunteer_f())));
    let s4 = seg("education"@, list_val(v.education.map_values(enc_education_f())));
    let s5 = seg("awards"@, list_val(v.awards.map_values(enc_award_f())));
    let s6 = seg("certificates"@, list_val(v.certificates.map_values(enc_certificate_f())));
    let s7 = seg("publications"@, list_val(v.publications.map_values(enc_publication_f())));
    let s8 = seg("skills"@, list_val(v.skills.map_values(enc_skill_f())));
    let s9 = seg("languages"@, list_val(v.languages.map_values(enc_language_f())));
    let s10 = seg("interests"@, list_val(v.interests.map_values(enc_interest_f())));
    let s11 = seg("references"@, list_val(v.references.map_values(enc_reference_f())));
    let s12 = seg("projects"@, list_val(v.projects.map_values(enc_project_f())));
    let s13 = seg("sideProjects"@, list_val(v.side_projects.map_values(enc_project_f())));
    let s14 = seg("meta"@, (match v.meta { Option::Some(x) => Some(enc_meta(x)), Option::None => None }));
    let p1 = s1;
    let p2 = p1 + s2;
    let p3 = p2 + s3;
    let p4 = p3 + s4;
    let p5 = p4 + s5;
    let p6 = p5 + s6;
    let p7 = p6 + s7;
    let p8 = p7 + s8;
    let p9 = p8 + s9;
    let p10 = p9 + s10;
    let p11 = p10 + s11;
    let p12 = p11 + s12;
    let p13 = p12 + s13;
    let p14 = p13 + s14;
    lemma_get_seg("basics"@, (match v.basics { Option::Some(x) => Some(enc_basics(x)), Option::None => None }), "references"@);
    lemma_get_seg("work"@, list_val(v.work.map_values(enc_work_f())), "references"@);
    lemma_get_seg("volunteer"@, list_val(v.volunteer.map_values(enc_volunteer_f())), "references"@);
    lemma_get_seg("education"@, list_val(v.education.map_values(enc_education_f())), "references"@);
    lemma_get_seg("awards"@, list_val(v.awards.map_values(enc_award_f())), "references"@);
    lemma_get_seg("certificates"@, list_val(v.certificates.map_values(enc_certificate_f())), "references"@);
    lemma_get_seg("publications"@, list_val(v.publications.map_values(enc_publication_f())), "references"@);
    lemma_get_seg("skills"@, list_val(v.skills.map_values(enc_skill_f())), "references"@);
    lemma_get_seg("languages"@, list_val(v.languages.map_values(enc_language_f())), "references"@);
    lemma_get_seg("interests"@, list_val(v.interests.map_values(enc_interest_f())), "references"@);
    lemma_get_seg("references"@, list_val(v.references.map_values(enc_reference_f())), "references"@);
    lemma_get_seg("projects"@, list_val(v.projects.map_values(enc_project_f())), "references"@);
    lemma_get_seg("sideProjects"@, list_val(v.side_projects.map_values(enc_project_f())), "references"@);
    lemma_get_seg("meta"@, (match v.meta { Option::Some(x) => Some(enc_meta(x)), Option::None => None }), "references"@);
    lemma_obj_get_append(p1, s2, "references"@);
    lemma_obj_get_append(p2, s3, "references"@);
    lemma_obj_get_append(p3, s4, "references"@);
    lemma_obj_get_append(p4, s5, "references"@);
    lemma_obj_get_append(p5, s6, "references"@);
    lemma_obj_get_append(p6, s7, "references"@);
    lemma_obj_get_append(p7, s8, "references"@);
    lemma_obj_get_append(p8, s9, "references"@);
    lemma_obj_get_append(p9, s10, "references"@);
    lemma_obj_get_append(p10, s11, "references"@);
    lemma_obj_get_append(p11, s12, "references"@);
    lemma_obj_get_append(p12, s13, "references"@);
    lemma_obj_get_append(p13, s14, "references"@);
    assert(enc_resume_fields(v) == p14);
}

/// Where the `projects` member of an encoded [`ResumeView`] stands.
#[verifier::rlimit(80)]
proof fn lemma_resume_member_projects(v: ResumeView)
    ensures
        jv_obj_get(enc_resume_fields(v), "projects"@) == list_val(v.projects.map_values(enc_project_f())),
{
    reveal_strlit("awards");
    assert("awards"@.len() == 6);
    reveal_strlit("basics");
    assert("basics"@.len() == 6);
    reveal_strlit("certificates");
    assert("certificates"@.len() == 12);
    reveal_strlit("education");
    assert("education"@.len() == 9);
    reveal_strlit("interests");
    assert("interests"@.len() == 9);
    reveal_strlit("languages");
    assert("languages"@.len() == 9);
    reveal_strlit("meta");
    assert("meta"@.len() == 4);
    reveal_strlit("projects");
    assert("projects"@.len() == 8);
    reveal_strlit("publications");
    assert("publications"@.len() == 12);
    reveal_strlit("references");
    assert("references"@.len() == 10);
    reveal_strlit("sideProjects");
    assert("sideProjects"@.len() == 12);
    reveal_strlit("skills");
    assert("skills"@.len() == 6);
    reveal_strlit("volunteer");
    assert("volunteer"@.len() == 9);
    reveal_strlit("work");
    assert("work"@.len() == 4);
    assert("projects"@ != "basics"@);
    assert("projects"@ != "work"@);
    assert("projects"@ != "volunteer"@);
    assert("projects"@ != "education"@);
    assert("projects"@ != "awards"@);
    assert("projects"@ != "certificates"@);
    assert("projects"@ != "publications"@);
    assert("projects"@ != "skills"@);
    assert("projects"@ != "languages"@);
    assert("projects"@ != "interests"@);
    assert("projects"@ != "references"@);
    assert("projects"@ != "sideProjects"@);
    assert("projects"@ != "meta"@);
    let s1 = seg("basics"@, (match v.basics { Option::Some(x) => Some(enc_basics(x)), Option::None => None }));
    let s2 = seg("work"@, list_val(v.work.map_values(enc_work_f())));
    let s3 = seg("volunteer"@, list_val(v.volunteer.map_values(enc_volunteer_f())));
    let s4 = seg("education"@, list_val(v.education.map_values(enc_education_f())));
    let s5 = seg("awards"@, list_val(v.awards.map_values(enc_award_f())));
    let s6 = seg("certificates"@, list_val(v.certificates.map_values(enc_certificate_f())));
    let s7 = seg("publications"@, list_val(v.publications.map_values(enc_publication_f())));
    let s8 = seg("skills"@, list_val(v.skills.map_values(enc_skill_f())));
    let s9 = seg("languages"@, list_val(v.languages.map_values(enc_language_f())));
    let s10 = seg("interests"@, list_val(v.interests.map_values(enc_interest_f())));
    let s11 = seg("references"@, list_val(v.references.map_values(enc_reference_f())));
    let s12 = seg("projects"@, list_val(v.projects.map_values(enc_project_f())));
    let s13 = seg("sideProjects"@, list_val(v.side_projects.map_values(enc_project_f())));
    let s14 = seg("meta"@, (match v.meta { Option::Some(x) => Some(enc_meta(x)), Option::None => None }));
    let p1 = s1;
    let p2 = p1 + s2;
    let p3 = p2 + s3;
    let p4 = p3 + s4;
    let p5 = p4 + s5;
    let p6 = p5 + s6;
    let p7 = p6 + s7;
    let p8 = p7 + s8;
    let p9 = p8 + s9;
    let p10 = p9 + s10;
    let p11 = p10 + s11;
    let p12 = p11 + s12;
    let p13 = p12 + s13;
    let p14 = p13 + s14;
    lemma_get_seg("basics"@, (match v.basics { Option::Some(x) => Some(enc_basics(x)), Option::None => None }), "projects"@);
    lemma_get_seg("work"@, list_val(v.work.map_values(enc_work_f())), "projects"@);
    lemma_get_seg("volunteer"@, list_val(v.volunteer.map_values(enc_volunteer_f())), "projects"@);
    lemma_get_seg("education"@, list_val(v.education.map_values(enc_education_f())), "projects"@);
    lemma_get_seg("awards"@, list_val(v.awards.map_values(enc_award_f())), "projects"@);
    lemma_get_seg("certificates"@, list_val(v.certificates.map_values(enc_certificate_f())), "projects"@);
    lemma_get_seg("publications"@, list_val(v.publications.map_values(enc_publication_f())), "projects"@);
    lemma_get_seg("skills"@, list_val(v.skills.map_values(enc_skill_f())), "projects"@);
    lemma_get_seg("languages"@, list_val(v.languages.map_values(enc_language_f())), "projects"@);
    lemma_get_seg("interests"@, list_val(v.interests.map_values(enc_interest_f())), "projects"@);
    lemma_get_seg("references"@, list_val(v.references.map_values(enc_reference_f())), "projects"@);
    lemma_get_seg("projects"@, list_val(v.projects.map_values(enc_project_f())), "projects"@);
    lemma_get_seg("sideProjects"@, list_val(v.side_projects.map_values(enc_project_f())), "projects"@);
    lemma_get_seg("meta"@, (match v.meta { Option::Some(x) => Some(enc_meta(x)), Option::None => None }), "projects"@);
    lemma_obj_get_append(p1, s2, "projects"@);
    lemma_obj_get_append(p2, s3, "projects"@);
    lemma_obj_get_append(p3, s4, "projects"@);
    lemma_obj_get_append(p4, s5, "projects"@);
    lemma_obj_get_append(p5, s6, "projects"@);
    lemma_obj_get_append(p6, s7, "projects"@);
    lemma_obj_get_append(p7, s8, "projects"@);
    lemma_obj_get_append(p8, s9, "projects"@);
    lemma_obj_get_append(p9, s10, "projects"@);
    lemma_obj_get_append(p10, s11, "projects"@);
    lemma_obj_get_append(p11, s12, "projects"@);
    lemma_obj_get_append(p12, s13, "projects"@);
    lemma_obj_get_append(p13, s14, "projects"@);
    assert(enc_resume_fields(v) == p14);
}

/// Where the `sideProjects` member of an encoded [`ResumeView`] stands.
#[verifier::rlimit(80)]
proof fn lemma_resume_member_side_projects(v: ResumeView)
    ensures
        jv_obj_get(enc_resume_fields(v), "sideProjects"@) == list_val(v.side_projects.map_values(enc_project_f())),
{
    reveal_strlit("awards");
    assert("awards"@.len() == 6);
    reveal_strlit("basics");
    assert("basics"@.len() == 6);
    reveal_strlit("certificates");
    assert("certificates"@.len() == 12);
    reveal_strlit("education");
    assert("education"@.len() == 9);
    reveal_strlit("interests");
    assert("interests"@.len() == 9);
    reveal_strlit("languages");
    assert("languages"@.len() == 9);
    reveal_strlit("meta");
    assert("meta"@.len() == 4);
    reveal_strlit("projects");
    assert("projects"@.len() == 8);
    reveal_strlit("publications");
    assert("publications"@.len() == 12);
    reveal_strlit("references");
    assert("references"@.len() == 10);
    reveal_strlit("sideProjects");
    assert("sideProjects"@.len() == 12);
    reveal_strlit("skills");
    assert("skills"@.len() == 6);
    reveal_strlit("volunteer");
    assert("volunteer"@.len() == 9);
    reveal_strlit("work");
    assert("work"@.len() == 4);
    assert("sideProjects"@ != "basics"@);
    assert("sideProjects"@ != "work"@);
    assert("sideProjects"@ != "volunteer"@);
    assert("sideProjects"@ != "education"@);
    assert("sideProjects"@ != "awards"@);
    assert("sideProjects"@[0] != "certificates"@[0]);
    assert("sideProjects"@ != "certificates"@);
    assert("sideProjects"@[0] != "publications"@[0]);
    assert("sideProjects"@ != "publications"@);
    assert("sideProjects"@ != "skills"@);
    assert("sideProjects"@ != "languages"@);
    assert("sideProjects"@ != "interests"@);
    assert("sideProjects"@ != "references"@);
    assert("sideProjects"@ != "projects"@);
    assert("sideProjects"@ != "meta"@);
    let s1 = seg("basics"@, (match v.basics { Option::Some(x) => Some(enc_basics(x)), Option::None => None }));
    let s2 = seg("work"@, list_val(v.work.map_values(enc_work_f())));
    let s3 = seg("volunteer"@, list_val(v.volunteer.map_values(enc_volunteer_f())));
    let s4 = seg("education"@, list_val(v.education.map_values(enc_education_f())));
    let s5 = seg("awards"@, list_val(v.awards.map_values(enc_award_f())));
    let s6 = seg("certificates"@, list_val(v.certificates.map_values(enc_certificate_f())));
    let s7 = seg("publications"@, list_val(v.publications.map_values(enc_publication_f())));
    let s8 = seg("skills"@, list_val(v.skills.map_values(enc_skill_f())));
    let s9 = seg("languages"@, list_val(v.languages.map_values(enc_language_f())));
    let s10 = seg("interests"@, list_val(v.interests.map_values(enc_interest_f())));
    let s11 = seg("references"@, list_val(v.references.map_values(enc_reference_f())));
    let s12 = seg("projects"@, list_val(v.projects.map_values(enc_project_f())));
    let s13 = seg("sideProjects"@, list_val(v.side_projects.map_values(enc_project_f())));
    let s14 = seg("meta"@, (match v.meta { Option::Some(x) => Some(enc_meta(x)), Option::None => None }));
    let p1 = s1;
    let p2 = p1 + s2;
    let p3 = p2 + s3;
    let p4 = p3 + s4;
    let p5 = p4 + s5;
    let p6 = p5 + s6;
    let p7 = p6 + s7;
    let p8 = p7 + s8;
    let p9 = p8 + s9;
    let p10 = p9 + s10;
    let p11 = p10 + s11;
    let p12 = p11 + s12;
    let p13 = p12 + s13;
    let p14 = p13 + s14;
    lemma_get_seg("basics"@, (match v.basics { Option::Some(x) => Some(enc_basics(x)), Option::None => None }), "sideProjects"@);
    lemma_get_seg("work"@, list_val(v.work.map_values(enc_work_f())), "sideProjects"@);
    lemma_get_seg("volunteer"@, list_val(v.volunteer.map_values(enc_volunteer_f())), "sideProjects"@);
    lemma_get_seg("education"@, list_val(v.education.map_values(enc_education_f())), "sideProjects"@);
    lemma_get_seg("awards"@, list_val(v.awards.map_values(enc_award_f())), "sideProjects"@);
    lemma_get_seg("certificates"@, list_val(v.certificates.map_values(enc_certificate_f())), "sideProjects"@);
    lemma_get_seg("publications"@, list_val(v.publications.map_values(enc_publication_f())), "sideProjects"@);
    lemma_get_seg("skills"@, list_val(v.skills.map_values(enc_skill_f())), "sideProjects"@);
    lemma_get_seg("languages"@, list_val(v.languages.map_values(enc_language_f())), "sideProjects"@);
    lemma_get_seg("interests"@, list_val(v.interests.map_values(enc_interest_f())), "sideProjects"@);
    lemma_get_seg("references"@, list_val(v.references.map_values(enc_reference_f())), "sideProjects"@);
    lemma_get_seg("projects"@, list_val(v.projects.map_values(enc_project_f())), "sideProjects"@);
    lemma_get_seg("sideProjects"@, list_val(v.side_projects.map_values(enc_project_f())), "sideProjects"@);
    lemma_get_seg("meta"@, (match v.meta { Option::Some(x) => Some(enc_meta(x)), Option::None => None }), "sideProjects"@);
    lemma_obj_get_append(p1, s2, "sideProjects"@);
    lemma_obj_get_append(p2, s3, "sideProjects"@);
    lemma_obj_get_append(p3, s4, "sideProjects"@);
    lemma_obj_get_append(p4, s5, "sideProjects"@);
    lemma_obj_get_append(p5, s6, "sideProjects"@);
    lemma_obj_get_append(p6, s7, "sideProjects"@);
    lemma_obj_get_append(p7, s8, "sideProjects"@);
    lemma_obj_get_append(p8, s9, "sideProjects"@);
    lemma_obj_get_append(p9, s10, "sideProjects"@);
    lemma_obj_get_append(p10, s11, "sideProjects"@);
    lemma_obj_get_append(p11, s12, "sideProjects"@);
    lemma_obj_get_append(p12, s13, "sideProjects"@);
    lemma_obj_get_append(p13, s14, "sideProjects"@);
    assert(enc_resume_fields(v) == p14);
}

/// Where the `meta` member of an encoded [`ResumeView`] stands.
#[verifier::rlimit(80)]
proof fn lemma_resume_member_meta(v: ResumeView)
    ensures
        jv_obj_get(enc_resume_fields(v), "meta"@) == (match v.meta { Option::Some(x) => Some(enc_meta(x)), Option::None => None }),
{
    reveal_strlit("awards");
    assert("awards"@.len() == 6);
    reveal_strlit("basics");
    assert("basics"@.len() == 6);
    reveal_strlit("certificates");
    assert("certificates"@.len() == 12);
    reveal_strlit("education");
    assert("education"@.len() == 9);
    reveal_strlit("interests");
    assert("interests"@.len() == 9);
    reveal_strlit("languages");
    assert("languages"@.len() == 9);
    reveal_strlit("meta");
    assert("meta"@.len() == 4);
    reveal_strlit("projects");
    assert("projects"@.len() == 8);
    reveal_strlit("publications");
    assert("publications"@.len() == 12);
    reveal_strlit("references");
    assert("references"@.len() == 10);
    reveal_strlit("sideProjects");
    assert("sideProjects"@.len() == 12);
    reveal_strlit("skills");
    assert("skills"@.len() == 6);
    reveal_strlit("volunteer");
    assert("volunteer"@.len() == 9);
    reveal_strlit("work");
    assert("work"@.len() == 4);
    assert("meta"@ != "basics"@);
    assert("meta"@[0] != "work"@[0]);
    assert("meta"@ != "work"@);
    assert("meta"@ != "volunteer"@);
    assert("meta"@ != "education"@);
    assert("meta"@ != "awards"@);
    assert("meta"@ != "certificates"@);
    assert("meta"@ != "publications"@);
    assert("meta"@ != "skills"@);
    assert("meta"@ != "languages"@);
    assert("meta"@ != "interests"@);
    assert("meta"@ != "references"@);
    assert("meta"@ != "projects"@);
    assert("meta"@ != "sideProjects"@);
    let s1 = seg("basics"@, (match v.basics { Option::Some(x) => Some(enc_basics(x)), Option::None => None }));
    let s2 = seg("work"@, list_val(v.work.map_values(enc_work_f())));
    let s3 = seg("volunteer"@, list_val(v.volunteer.map_values(enc_volunteer_f())));
    let s4 = seg("education"@, list_val(v.education.map_values(enc_education_f())));
    let s5 = seg("awards"@, list_val(v.awards.map_values(enc_award_f())));
    let s6 = seg("certificates"@, list_val(v.certificates.map_values(enc_certificate_f())));
    let s7 = seg("publications"@, list_val(v.publications.map_values(enc_publication_f())));
    let s8 = seg("skills"@, list_val(v.skills.map_values(enc_skill_f())));
    let s9 = seg("languages"@, list_val(v.languages.map_values(enc_language_f())));
    let s10 = seg("interests"@, list_val(v.interests.map_values(enc_interest_f())));
    let s11 = seg("references"@, list_val(v.references.map_values(enc_reference_f())));
    let s12 = seg("projects"@, list_val(v.projects.map_values(enc_project_f())));
    let s13 = seg("sideProjects"@, list_val(v.side_projects.map_values(enc_project_f())));
    let s14 = seg("meta"@, (match v.meta { Option::Some(x) => Some(enc_meta(x)), Option::None => None }));
    let p1 = s1;
    let p2 = p1 + s2;
    let p3 = p2 + s3;
    let p4 = p3 + s4;
    let p5 = p4 + s5;
    let p6 = p5 + s6;
    let p7 = p6 + s7;
    let p8 = p7 + s8;
    let p9 = p8 + s9;
    let p10 = p9 + s10;
    let p11 = p10 + s11;
    let p12 = p11 + s12;
    let p13 = p12 + s13;
    let p14 = p13 + s14;
    lemma_get_seg("basics"@, (match v.basics { Option::Some(x) => Some(enc_basics(x)), Option::None => None }), "meta"@);
    lemma_get_seg("work"@, list_val(v.work.map_values(enc_work_f())), "meta"@);
    lemma_get_seg("volunteer"@, list_val(v.volunteer.map_values(enc_volunteer_f())), "meta"@);
    lemma_get_seg("education"@, list_val(v.education.map_values(enc_education_f())), "meta"@);
    lemma_get_seg("awards"@, list_val(v.awards.map_values(enc_award_f())), "meta"@);
    lemma_get_seg("certificates"@, list_val(v.certificates.map_values(enc_certificate_f())), "meta"@);
    lemma_get_seg("publications"@, list_val(v.publications.map_values(enc_publication_f())), "meta"@);
    lemma_get_seg("skills"@, list_val(v.skills.map_values(enc_skill_f())), "meta"@);
    lemma_get_seg("languages"@, list_val(v.languages.map_values(enc_language_f())), "meta"@);
    lemma_get_seg("interests"@, list_val(v.interests.map_values(enc_interest_f())), "meta"@);
    lemma_get_seg("references"@, list_val(v.references.map_values(enc_reference_f())), "meta"@);
    lemma_get_seg("projects"@, list_val(v.projects.map_values(enc_project_f())), "meta"@);
    lemma_get_seg("sideProjects"@, list_val(v.side_projects.map_values(enc_project_f())), "meta"@);
    lemma_get_seg("meta"@, (match v.meta { Option::Some(x) => Some(enc_meta(x)), Option::None => None }), "meta"@);
    lemma_obj_get_append(p1, s2, "meta"@);
    lemma_obj_get_append(p2, s3, "meta"@);
    lemma_obj_get_append(p3, s4, "meta"@);
    lemma_obj_get_append(p4, s5, "meta"@);
    lemma_obj_get_append(p5, s6, "meta"@);
    lemma_obj_get_append(p6, s7, "meta"@);
    lemma_obj_get_append(p7, s8, "meta"@);
    lemma_obj_get_append(p8, s9, "meta"@);
    lemma_obj_get_append(p9, s10, "meta"@);
    lemma_obj_get_append(p10, s11, "meta"@);
    lemma_obj_get_append(p11, s12, "meta"@);
    lemma_obj_get_append(p12, s13, "meta"@);
    lemma_obj_get_append(p13, s14, "meta"@);
    assert(enc_resume_fields(v) == p14);
}

/// A [`ResumeView`] survives the round trip through the wire format.
#[verifier::rlimit(100)]
pub proof fn lemma_resume_roundtrip(v: ResumeView)
    ensures
        dec_resume(enc_resume(v)) == Some(v),
{
    let f = enc_resume_fields(v);
    lemma_resume_member_basics(v);
    assert(jv_obj_get(f, "basics"@) == (match v.basics { Option::Some(x) => Some(enc_basics(x)), Option::None => None }));
    lemma_resume_member_work(v);
    assert(jv_obj_get(f, "work"@) == list_val(v.work.map_values(enc_work_f())));
    lemma_resume_member_volunteer(v);
    assert(jv_obj_get(f, "volunteer"@) == list_val(v.volunteer.map_values(enc_volunteer_f())));
    lemma_resume_member_education(v);
    assert(jv_obj_get(f, "education"@) == list_val(v.education.map_values(enc_education_f())));
    lemma_resume_member_awards(v);
    assert(jv_obj_get(f, "awards"@) == list_val(v.awards.map_values(enc_award_f())));
    lemma_resume_member_certificates(v);
    assert(jv_obj_get(f, "certificates"@) == list_val(v.certificates.map_values(enc_certificate_f())));
    lemma_resume_member_publications(v);
    assert(jv_obj_get(f, "publications"@) == list_val(v.publications.map_values(enc_publication_f())));
    lemma_resume_member_skills(v);
    assert(jv_obj_get(f, "skills"@) == list_val(v.skills.map_values(enc_skill_f())));
    lemma_resume_member_languages(v);
    assert(jv_obj_get(f, "languages"@) == list_val(v.languages.map_values(enc_language_f())));
    lemma_resume_member_interests(v);
    assert(jv_obj_get(f, "interests"@) == list_val(v.interests.map_values(enc_interest_f())));
    lemma_resume_member_references(v);
    assert(jv_obj_get(f, "references"@) == list_val(v.references.map_values(enc_reference_f())));
    lemma_resume_member_projects(v);
    assert(jv_obj_get(f, "projects"@) == list_val(v.projects.map_values(enc_project_f())));
    lemma_resume_member_side_projects(v);
    assert(jv_obj_get(f, "sideProjects"@) == list_val(v.side_projects.map_values(enc_project_f())));
    lemma_resume_member_meta(v);
    assert(jv_obj_get(f, "meta"@) == (match v.meta { Option::Some(x) => Some(enc_meta(x)), Option::None => None }));
    if v.basics is Some {
        lemma_basics_roundtrip(v.basics.unwrap());
    }
    assert(dec_opt_rec(f, "basics"@, dec_basics_f()) == Some(v.basics));
    assert forall|a: WorkView| #[trigger] dec_work_f()(enc_work_f()(a)) == Some(a) by {
        lemma_work_roundtrip(a);
    }
    lemma_list_roundtrip(v.work, enc_work_f(), dec_work_f());
    if v.work.len() == 0 {
        assert(v.work =~= Seq::<WorkView>::empty());
    }
    assert(dec_list(f, "work"@, dec_work_f()) == Some(v.work));
    assert forall|a: VolunteerView| #[trigger] dec_volunteer_f()(enc_volunteer_f()(a)) == Some(a) by {
        lemma_volunteer_roundtrip(a);
    }
    lemma_list_roundtrip(v.volunteer, enc_volunteer_f(), dec_volunteer_f());
    if v.volunteer.len() == 0 {
        assert(v.volunteer =~= Seq::<VolunteerView>::empty());
    }
    assert(dec_list(f, "volunteer"@, dec_volunteer_f()) == Some(v.volunteer));
    assert forall|a: EducationView| #[trigger] dec_education_f()(enc_education_f()(a)) == Some(a) by {
        lemma_education_roundtrip(a);
    }
    lemma_list_roundtrip(v.education, enc_education_f(), dec_education_f());
    if v.education.len() == 0 {
        assert(v.education =~= Seq::<EducationView>::empty());
    }
    assert(dec_list(f, "education"@, dec_education_f()) == Some(v.education));
    assert forall|a: AwardView| #[trigger] dec_award_f()(enc_award_f()(a)) == Some(a) by {
        lemma_award_roundtrip(a);
    }
    lemma_list_roundtrip(v.awards, enc_award_f(), dec_award_f());
    if v.awards.len() == 0 {
        assert(v.awards =~= Seq::<AwardView>::empty());
    }
    assert(dec_list(f, "awards"@, dec_award_f()) == Some(v.awards));
    assert forall|a: CertificateView| #[trigger] dec_certificate_f()(enc_certificate_f()(a)) == Some(a) by {
        lemma_certificate_roundtrip(a);
    }
    lemma_list_roundtrip(v.certificates, enc_certificate_f(), dec_certificate_f());
    if v.certificates.len() == 0 {
        assert(v.certificates =~= Seq::<CertificateView>::empty());
    }
    assert(dec_list(f, "certificates"@, dec_certificate_f()) == Some(v.certificates));
    assert forall|a: PublicationView| #[trigger] dec_publication_f()(enc_publication_f()(a)) == Some(a) by {
        lemma_publication_roundtrip(a);
    }
    lemma_list_roundtrip(v.publications, enc_publication_f(), dec_publication_f());
    if v.publications.len() == 0 {
        assert(v.publications =~= Seq::<PublicationView>::empty());
    }
    assert(dec_list(f, "publications"@, dec_publication_f()) == Some(v.publications));
    assert forall|a: SkillView| #[trigger] dec_skill_f()(enc_skill_f()(a)) == Some(a) by {
        lemma_skill_roundtrip(a);
    }
    lemma_list_roundtrip(v.skills, enc_skill_f(), dec_skill_f());
    if v.skills.len() == 0 {
        assert(v.skills =~= Seq::<SkillView>::empty());
    }
    assert(dec_list(f, "skills"@, dec_skill_f()) == Some(v.skills));
    assert forall|a: LanguageView| #[trigger] dec_language_f()(enc_language_f()(a)) == Some(a) by {
        lemma_language_roundtrip(a);
    }
    lemma_list_roundtrip(v.languages, enc_language_f(), dec_language_f());
    if v.languages.len() == 0 {
        assert(v.languages =~= Seq::<LanguageView>::empty());
    }
    assert(dec_list(f, "languages"@, dec_language_f()) == Some(v.languages));
    assert forall|a: InterestView| #[trigger] dec_interest_f()(enc_interest_f()(a)) == Some(a) by {
        lemma_interest_roundtrip(a);
    }
    lemma_list_roundtrip(v.interests, enc_interest_f(), dec_interest_f());
    if v.interests.len() == 0 {
        assert(v.interests =~= Seq::<InterestView>::empty());
    }
    assert(dec_list(f, "interests"@, dec_interest_f()) == Some(v.interests));
    assert forall|a: ReferenceView| #[trigger] dec_reference_f()(enc_reference_f()(a)) == Some(a) by {
        lemma_reference_roundtrip(a);
    }
    lemma_list_roundtrip(v.references, enc_reference_f(), dec_reference_f());
    if v.references.len() == 0 {
        assert(v.references =~= Seq::<ReferenceView>::empty());
    }
    assert(dec_list(f, "references"@, dec_reference_f()) == Some(v.references));
    assert forall|a: ProjectView| #[trigger] dec_project_f()(enc_project_f()(a)) == Some(a) by {
        lemma_project_roundtrip(a);
    }
    lemma_list_roundtrip(v.projects, enc_project_f(), dec_project_f());
    if v.projects.len() == 0 {
        assert(v.projects =~= Seq::<ProjectView>::empty());
    }
    assert(dec_list(f, "projects"@, dec_project_f()) == Some(v.projects));
    assert forall|a: ProjectView| #[trigger] dec_project_f()(enc_project_f()(a)) == Some(a) by {
        lemma_project_roundtrip(a);
    }
    lemma_list_roundtrip(v.side_projects, enc_project_f(), dec_project_f());
    if v.side_projects.len() == 0 {
        assert(v.side_projects =~= Seq::<ProjectView>::empty());
    }
    assert(dec_list(f, "sideProjects"@, dec_project_f()) == Some(v.side_projects));
    if v.meta is Some {
        lemma_meta_roundtrip(v.meta.unwrap());
    }
    assert(dec_opt_rec(f, "meta"@, dec_meta_f()) == Some(v.meta));
    assert(dec_resume_fields(f) is Some);
    assert(dec_resume_fields(f).unwrap() =~~= v);
}

/// Decoding an encoded tree gives the tree back, for every tree; in
/// particular, any tree obtained by decoding a wire value survives the
/// round trip through encoding.
pub proof fn lemma_roundtrip(j: JsonV, t: ResumeView)
    requires
        dec_resume(j) == Some(t),
    ensures
        dec_resume(enc_resume(t)) == Some(t),
{
    lemma_resume_roundtrip(t);
}

/// Encoding a tree with every optional field absent and every collection
/// empty yields a wire object with no members at all.
pub proof fn lemma_encode_default_is_empty_object()
    ensures
        enc_resume(ResumeView::empty()) == JsonV::Obj(Seq::<(Seq<char>, JsonV)>::empty()),
{
    assert(enc_resume_fields(ResumeView::empty()) =~= Seq::<(Seq<char>, JsonV)>::empty());
}

/// A position entry whose object has no `title` member does not decode.
pub proof fn lemma_position_requires_title(f: Seq<(Seq<char>, JsonV)>)
    requires
        jv_obj_get(f, "title"@) is None,
    ensures
        dec_position(JsonV::Obj(f)) is None,
{
}

/// A feature entry missing any one of its required members does not
/// decode.
pub proof fn lemma_feature_requires_all(f: Seq<(Seq<char>, JsonV)>)
    ensures
        jv_obj_get(f, "name"@) is None ==> dec_feature(JsonV::Obj(f)) is None,
        jv_obj_get(f, "situation"@) is None ==> dec_feature(JsonV::Obj(f)) is None,
        jv_obj_get(f, "task"@) is None ==> dec_feature(JsonV::Obj(f)) is None,
        jv_obj_get(f, "action"@) is None ==> dec_feature(JsonV::Obj(f)) is None,
        jv_obj_get(f, "result"@) is None ==> dec_feature(JsonV::Obj(f)) is None,
{
}

/// Wrapper values cross the wire as bare strings: a project's populated
/// `highlights` member is an array of plain strings, and that array
/// decodes back to the same wrapped values.
#[verifier::rlimit(100)]
pub proof fn lemma_wrapper_transparency(v: ProjectView)
    requires
        v.highlights.len() > 0,
    ensures
        jv_obj_get(enc_project_fields(v), "highlights"@) == Some(JsonV::Arr(
            v.highlights.map_values(jstr_f()))),
        dec_list(enc_project_fields(v), "highlights"@, dec_str_f()) == Some(v.highlights),
{
    reveal_strlit("description");
    assert("description"@.len() == 11);
    reveal_strlit("duties");
    assert("duties"@.len() == 6);
    reveal_strlit("endDate");
    assert("endDate"@.len() == 7);
    reveal_strlit("entity");
    assert("entity"@.len() == 6);
    reveal_strlit("features");
    assert("features"@.len() == 8);
    reveal_strlit("highlights");
    assert("highlights"@.len() == 10);
    reveal_strlit("keywords");
    assert("keywords"@.len() == 8);
    reveal_strlit("name");
    assert("name"@.len() == 4);
    reveal_strlit("profits");
    assert("profits"@.len() == 7);
    reveal_strlit("roles");
    assert("roles"@.len() == 5);
    reveal_strlit("startDate");
    assert("startDate"@.len() == 9);
    reveal_strlit("type");
    assert("type"@.len() == 4);
    reveal_strlit("url");
    assert("url"@.len() == 3);
    assert("highlights"@ != "name"@);
    assert("highlights"@ != "description"@);
    assert("highlights"@ != "duties"@);
    assert("highlights"@ != "profits"@);
    assert("highlights"@ != "features"@);
    assert("highlights"@ != "keywords"@);
    assert("highlights"@ != "startDate"@);
    assert("highlights"@ != "endDate"@);
    assert("highlights"@ != "url"@);
    assert("highlights"@ != "roles"@);
    assert("highlights"@ != "entity"@);
    assert("highlights"@ != "type"@);
    let f = enc_project_fields(v);
    lemma_get_seg("name"@, opt_str_val(v.name), "highlights"@);
    lemma_get_seg("description"@, opt_str_val(v.description), "highlights"@);
    lemma_get_seg("highlights"@, list_val(v.highlights.map_values(jstr_f())), "highlights"@);
    lemma_get_seg("duties"@, list_val(v.duties.map_values(jstr_f())), "highlights"@);
    lemma_get_seg("profits"@, list_val(v.profits.map_values(jstr_f())), "highlights"@);
    lemma_get_seg("features"@, list_val(v.features.map_values(enc_feature_f())), "highlights"@);
    lemma_get_seg("keywords"@, list_val(v.keywords.map_values(jstr_f())), "highlights"@);
    lemma_get_seg("startDate"@, opt_str_val(v.start_date), "highlights"@);
    lemma_get_seg("endDate"@, opt_str_val(v.end_date), "highlights"@);
    lemma_get_seg("url"@, opt_str_val(v.url), "highlights"@);
    lemma_get_seg("roles"@, list_val(v.roles.map_values(jstr_f())), "highlights"@);
    lemma_get_seg("entity"@, opt_str_val(v.entity), "highlights"@);
    lemma_get_seg("type"@, opt_str_val(v.type_), "highlights"@);
    lemma_obj_get_append(seg("name"@, opt_str_val(v.name)), seg("description"@, opt_str_val(v.description)), "highlights"@);
    lemma_obj_get_append(seg("name"@, opt_str_val(v.name)) + seg("description"@, opt_str_val(v.description)), seg("highlights"@, list_val(v.highlights.map_values(jstr_f()))), "highlights"@);
    lemma_obj_get_append(seg("name"@, opt_str_val(v.name)) + seg("description"@, opt_str_val(v.description)) + seg("highlights"@, list_val(v.highlights.map_values(jstr_f()))), seg("duties"@, list_val(v.duties.map_values(jstr_f()))), "highlights"@);
    lemma_obj_get_append(seg("name"@, opt_str_val(v.name)) + seg("description"@, opt_str_val(v.description)) + seg("highlights"@, list_val(v.highlights.map_values(jstr_f()))) + seg("duties"@, list_val(v.duties.map_values(jstr_f()))), seg("profits"@, list_val(v.profits.map_values(jstr_f()))), "highlights"@);
    lemma_obj_get_append(seg("name"@, opt_str_val(v.name)) + seg("description"@, opt_str_val(v.description)) + seg("highlights"@, list_val(v.highlights.map_values(jstr_f()))) + seg("duties"@, list_val(v.duties.map_values(jstr_f()))) + seg("profits"@, list_val(v.profits.map_values(jstr_f()))), seg("features"@, list_val(v.features.map_values(enc_feature_f()))), "highlights"@);
    lemma_obj_get_append(seg("name"@, opt_str_val(v.name)) + seg("description"@, opt_str_val(v.description)) + seg("highlights"@, list_val(v.highlights.map_values(jstr_f()))) + seg("duties"@, list_val(v.duties.map_values(jstr_f()))) + seg("profits"@, list_val(v.profits.map_values(jstr_f()))) + seg("features"@, list_val(v.features.map_values(enc_feature_f()))), seg("keywords"@, list_val(v.keywords.map_values(jstr_f()))), "highlights"@);
    lemma_obj_get_append(seg("name"@, opt_str_val(v.name)) + seg("description"@, opt_str_val(v.description)) + seg("highlights"@, list_val(v.highlights.map_values(jstr_f()))) + seg("duties"@, list_val(v.duties.map_values(jstr_f()))) + seg("profits"@, list_val(v.profits.map_values(jstr_f()))) + seg("features"@, list_val(v.features.map_values(enc_feature_f()))) + seg("keywords"@, list_val(v.keywords.map_values(jstr_f()))), seg("startDate"@, opt_str_val(v.start_date)), "highlights"@);
    lemma_obj_get_append(seg("name"@, opt_str_val(v.name)) + seg("description"@, opt_str_val(v.description)) + seg("highlights"@, list_val(v.highlights.map_values(jstr_f()))) + seg("duties"@, list_val(v.duties.map_values(jstr_f()))) + seg("profits"@, list_val(v.profits.map_values(jstr_f()))) + seg("features"@, list_val(v.features.map_values(enc_feature_f()))) + seg("keywords"@, list_val(v.keywords.map_values(jstr_f()))) + seg("startDate"@, opt_str_val(v.start_date)), seg("endDate"@, opt_str_val(v.end_date)), "highlights"@);
    lemma_obj_get_append(seg("name"@, opt_str_val(v.name)) + seg("description"@, opt_str_val(v.description)) + seg("highlights"@, list_val(v.highlights.map_values(jstr_f()))) + seg("duties"@, list_val(v.duties.map_values(jstr_f()))) + seg("profits"@, list_val(v.profits.map_values(jstr_f()))) + seg("features"@, list_val(v.features.map_values(enc_feature_f()))) + seg("keywords"@, list_val(v.keywords.map_values(jstr_f()))) + seg("startDate"@, opt_str_val(v.start_date)) + seg("endDate"@, opt_str_val(v.end_date)), seg("url"@, opt_str_val(v.url)), "highlights"@);
    lemma_obj_get_append(seg("name"@, opt_str_val(v.name)) + seg("description"@, opt_str_val(v.description)) + seg("highlights"@, list_val(v.highlights.map_values(jstr_f()))) + seg("duties"@, list_val(v.duties.map_values(jstr_f()))) + seg("profits"@, list_val(v.profits.map_values(jstr_f()))) + seg("features"@, list_val(v.features.map_values(enc_feature_f()))) + seg("keywords"@, list_val(v.keywords.map_values(jstr_f()))) + seg("startDate"@, opt_str_val(v.start_date)) + seg("endDate"@, opt_str_val(v.end_date)) + seg("url"@, opt_str_val(v.url)), seg("roles"@, list_val(v.roles.map_values(jstr_f()))), "highlights"@);
    lemma_obj_get_append(seg("name"@, opt_str_val(v.name)) + seg("description"@, opt_str_val(v.description)) + seg("highlights"@, list_val(v.highlights.map_values(jstr_f()))) + seg("duties"@, list_val(v.duties.map_values(jstr_f()))) + seg("profits"@, list_val(v.profits.map_values(jstr_f()))) + seg("features"@, list_val(v.features.map_values(enc_feature_f()))) + seg("keywords"@, list_val(v.keywords.map_values(jstr_f()))) + seg("startDate"@, opt_str_val(v.start_date)) + seg("endDate"@, opt_str_val(v.end_date)) + seg("url"@, opt_str_val(v.url)) + seg("roles"@, list_val(v.roles.map_values(jstr_f()))), seg("entity"@, opt_str_val(v.entity)), "highlights"@);
    lemma_obj_get_append(seg("name"@, opt_str_val(v.name)) + seg("description"@, opt_str_val(v.description)) + seg("highlights"@, list_val(v.highlights.map_values(jstr_f()))) + seg("duties"@, list_val(v.duties.map_values(jstr_f()))) + seg("profits"@, list_val(v.profits.map_values(jstr_f()))) + seg("features"@, list_val(v.features.map_values(enc_feature_f()))) + seg("keywords"@, list_val(v.keywords.map_values(jstr_f()))) + seg("startDate"@, opt_str_val(v.start_date)) + seg("endDate"@, opt_str_val(v.end_date)) + seg("url"@, opt_str_val(v.url)) + seg("roles"@, list_val(v.roles.map_values(jstr_f()))) + seg("entity"@, opt_str_val(v.entity)), seg("type"@, opt_str_val(v.type_)), "highlights"@);
    assert(jv_obj_get(f, "highlights"@) == list_val(v.highlights.map_values(jstr_f())));
    assert forall|x: Seq<char>| #[trigger] dec_str_f()(jstr_f()(x)) == Some(x) by {
        assert(jstr_f()(x) == JsonV::Str(x));
        assert(dec_str_val(JsonV::Str(x)) == Some(x));
    }
    lemma_list_roundtrip(v.highlights, jstr_f(), dec_str_f());
    assert(dec_list(f, "highlights"@, dec_str_f()) == Some(v.highlights));
}

} // verus!
