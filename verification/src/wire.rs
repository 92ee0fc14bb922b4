//! The codec's contract, at the specification level: what each entity
//! encodes to, member by member, and what a wire value decodes to. An
//! absent optional field and an empty collection are omitted on encode;
//! on decode a missing or null member resolves to the field's default,
//! an unknown member is ignored, and a member of the wrong shape, or a
//! missing required string, makes the whole entity undecodable.

use vstd::prelude::*;
use crate::json::{JsonV, jv_obj_get};
use crate::model::{ResumeView, BasicsView, LocationView, ProfileView, WorkView, PositionView, VolunteerView, EducationView, AwardView, CertificateView, PublicationView, SkillView, LanguageView, InterestView, ReferenceView, ProjectView, FeatureView, MetaView};

verus! {

/// The members that one field contributes to its entity's wire object:
/// none when the field is omitted, one otherwise.
pub open spec fn seg(name: Seq<char>, v: Option<JsonV>) -> Seq<(Seq<char>, JsonV)> {
    match v {
        Option::Some(j) => seq![(name, j)],
        Option::None => seq![],
    }
}

/// An optional string encodes to its string, or is omitted.
pub open spec fn opt_str_val(v: Option<Seq<char>>) -> Option<JsonV> {
    match v {
        Option::Some(s) => Some(JsonV::Str(s)),
        Option::None => None,
    }
}

/// A collection encodes to an array, or is omitted when empty.
pub open spec fn list_val(s: Seq<JsonV>) -> Option<JsonV> {
    if s.len() == 0 {
        None
    } else {
        Some(JsonV::Arr(s))
    }
}

pub open spec fn jstr_f() -> spec_fn(Seq<char>) -> JsonV {
    |s: Seq<char>| JsonV::Str(s)
}

/// An optional string member: absent or null means not provided; anything
/// but a string is a mismatch.
pub open spec fn dec_opt_str(f: Seq<(Seq<char>, JsonV)>, name: Seq<char>) -> Option<
    Option<Seq<char>>,
> {
    match jv_obj_get(f, name) {
        Option::None => Some(None),
        Option::Some(j) => match j {
            JsonV::Null => Some(None),
            JsonV::Str(s) => Some(Some(s)),
            _ => None,
        },
    }
}

/// A required string member: it must be present and be a string.
pub open spec fn dec_req_str(f: Seq<(Seq<char>, JsonV)>, name: Seq<char>) -> Option<
    Seq<char>,
> {
    match jv_obj_get(f, name) {
        Option::Some(j) => match j {
            JsonV::Str(s) => Some(s),
            _ => None,
        },
        Option::None => None,
    }
}

/// Every element of the array decodes.
pub open spec fn all_some<A>(s: Seq<JsonV>, d: spec_fn(JsonV) -> Option<A>) -> bool {
    forall|i: int| 0 <= i < s.len() ==> (#[trigger] d(s[i])) is Some
}

/// The element-wise decoding of an array; meaningful under [`all_some`].
pub open spec fn dec_elems<A>(s: Seq<JsonV>, d: spec_fn(JsonV) -> Option<A>) -> Seq<A> {
    s.map_values(|j: JsonV| d(j).unwrap())
}

/// A collection member: absent or null means empty; an array decodes
/// element by element; anything else is a mismatch.
pub open spec fn dec_list<A>(
    f: Seq<(Seq<char>, JsonV)>,
    name: Seq<char>,
    d: spec_fn(JsonV) -> Option<A>,
) -> Option<Seq<A>> {
    match jv_obj_get(f, name) {
        Option::None => Some(seq![]),
        Option::Some(j) => match j {
            JsonV::Null => Some(seq![]),
            JsonV::Arr(s) => if all_some(s, d) {
                Some(dec_elems(s, d))
            } else {
                None
            },
            _ => None,
        },
    }
}

/// A string element of an array.
pub open spec fn dec_str_val(j: JsonV) -> Option<Seq<char>> {
    match j {
        JsonV::Str(s) => Some(s),
        _ => None,
    }
}

pub open spec fn dec_str_f() -> spec_fn(JsonV) -> Option<Seq<char>> {
    |j: JsonV| dec_str_val(j)
}

/// An optional record member: absent or null means not provided.
pub open spec fn dec_opt_rec<A>(
    f: Seq<(Seq<char>, JsonV)>,
    name: Seq<char>,
    d: spec_fn(JsonV) -> Option<A>,
) -> Option<Option<A>> {
    match jv_obj_get(f, name) {
        Option::None => Some(None),
        Option::Some(j) => match j {
            JsonV::Null => Some(None),
            _ => match d(j) {
                Option::Some(a) => Some(Some(a)),
                Option::None => None,
            },
        },
    }
}

/// A record member carried by value: absent or null means the default.
pub open spec fn dec_rec<A>(
    f: Seq<(Seq<char>, JsonV)>,
    name: Seq<char>,
    d: spec_fn(JsonV) -> Option<A>,
    dflt: A,
) -> Option<A> {
    match jv_obj_get(f, name) {
        Option::None => Some(dflt),
        Option::Some(j) => match j {
            JsonV::Null => Some(dflt),
            _ => d(j),
        },
    }
}

/// The wire members of a [`ResumeView`], in field order.
pub open spec fn enc_resume_fields(v: ResumeView) -> Seq<(Seq<char>, JsonV)> {
    seg("basics"@, (match v.basics { Option::Some(x) => Some(enc_basics(x)), Option::None => None })) + seg("work"@, list_val(v.work.map_values(enc_work_f()))) + seg("volunteer"@, list_val(v.volunteer.map_values(enc_volunteer_f()))) + seg("education"@, list_val(v.education.map_values(enc_education_f()))) + seg("awards"@, list_val(v.awards.map_values(enc_award_f()))) + seg("certificates"@, list_val(v.certificates.map_values(enc_certificate_f()))) + seg("publications"@, list_val(v.publications.map_values(enc_publication_f()))) + seg("skills"@, list_val(v.skills.map_values(enc_skill_f()))) + seg("languages"@, list_val(v.languages.map_values(enc_language_f()))) + seg("interests"@, list_val(v.interests.map_values(enc_interest_f()))) + seg("references"@, list_val(v.references.map_values(enc_reference_f()))) + seg("projects"@, list_val(v.projects.map_values(enc_project_f()))) + seg("sideProjects"@, list_val(v.side_projects.map_values(enc_project_f()))) + seg("meta"@, (match v.meta { Option::Some(x) => Some(enc_meta(x)), Option::None => None }))
}

pub open spec fn enc_resume(v: ResumeView) -> JsonV {
    JsonV::Obj(enc_resume_fields(v))
}

pub open spec fn enc_resume_f() -> spec_fn(ResumeView) -> JsonV {
    |v: ResumeView| enc_resume(v)
}

/// What an object's members decode to as a [`ResumeView`], if they do.
pub open spec fn dec_resume_fields(f: Seq<(Seq<char>, JsonV)>) -> Option<ResumeView> {
    if dec_opt_rec(f, "basics"@, dec_basics_f()) is Some && dec_list(f, "work"@, dec_work_f()) is Some && dec_list(f, "volunteer"@, dec_volunteer_f()) is Some && dec_list(f, "education"@, dec_education_f()) is Some && dec_list(f, "awards"@, dec_award_f()) is Some && dec_list(f, "certificates"@, dec_certificate_f()) is Some && dec_list(f, "publications"@, dec_publication_f()) is Some && dec_list(f, "skills"@, dec_skill_f()) is Some && dec_list(f, "languages"@, dec_language_f()) is Some && dec_list(f, "interests"@, dec_interest_f()) is Some && dec_list(f, "references"@, dec_reference_f()) is Some && dec_list(f, "projects"@, dec_project_f()) is Some && dec_list(f, "sideProjects"@, dec_project_f()) is Some && dec_opt_rec(f, "meta"@, dec_meta_f()) is Some {
        Some(ResumeView {
            basics: dec_opt_rec(f, "basics"@, dec_basics_f()).unwrap(),
            work: dec_list(f, "work"@, dec_work_f()).unwrap(),
            volunteer: dec_list(f, "volunteer"@, dec_volunteer_f()).unwrap(),
            education: dec_list(f, "education"@, dec_education_f()).unwrap(),
            awards: dec_list(f, "awards"@, dec_award_f()).unwrap(),
            certificates: dec_list(f, "certificates"@, dec_certificate_f()).unwrap(),
            publications: dec_list(f, "publications"@, dec_publication_f()).unwrap(),
            skills: dec_list(f, "skills"@, dec_skill_f()).unwrap(),
            languages: dec_list(f, "languages"@, dec_language_f()).unwrap(),
            interests: dec_list(f, "interests"@, dec_interest_f()).unwrap(),
            references: dec_list(f, "references"@, dec_reference_f()).unwrap(),
            projects: dec_list(f, "projects"@, dec_project_f()).unwrap(),
            side_projects: dec_list(f, "sideProjects"@, dec_project_f()).unwrap(),
            meta: dec_opt_rec(f, "meta"@, dec_meta_f()).unwrap(),
        })
    } else {
        None
    }
}

pub open spec fn dec_resume(j: JsonV) -> Option<ResumeView> {
    match j {
        JsonV::Obj(f) => dec_resume_fields(f),
        _ => None,
    }
}

pub open spec fn dec_resume_f() -> spec_fn(JsonV) -> Option<ResumeView> {
    |j: JsonV| dec_resume(j)
}

/// The wire members of a [`BasicsView`], in field order.
pub open spec fn enc_basics_fields(v: BasicsView) -> Seq<(Seq<char>, JsonV)> {
    seg("name"@, opt_str_val(v.name)) + seg("label"@, opt_str_val(v.label)) + seg("image"@, opt_str_val(v.image)) + seg("email"@, opt_str_val(v.email)) + seg("phone"@, opt_str_val(v.phone)) + seg("url"@, opt_str_val(v.url)) + seg("summary"@, opt_str_val(v.summary)) + seg("location"@, Some(enc_location(v.location))) + seg("profiles"@, list_val(v.profiles.map_values(enc_profile_f())))
}

pub open spec fn enc_basics(v: BasicsView) -> JsonV {
    JsonV::Obj(enc_basics_fields(v))
}

pub open spec fn enc_basics_f() -> spec_fn(BasicsView) -> JsonV {
    |v: BasicsView| enc_basics(v)
}

/// What an object's members decode to as a [`BasicsView`], if they do.
pub open spec fn dec_basics_fields(f: Seq<(Seq<char>, JsonV)>) -> Option<BasicsView> {
    if dec_opt_str(f, "name"@) is Some && dec_opt_str(f, "label"@) is Some && dec_opt_str(f, "image"@) is Some && dec_opt_str(f, "email"@) is Some && dec_opt_str(f, "phone"@) is Some && dec_opt_str(f, "url"@) is Some && dec_opt_str(f, "summary"@) is Some && dec_rec(f, "location"@, dec_location_f(), LocationView::empty()) is Some && dec_list(f, "profiles"@, dec_profile_f()) is Some {
        Some(BasicsView {
            name: dec_opt_str(f, "name"@).unwrap(),
            label: dec_opt_str(f, "label"@).unwrap(),
            image: dec_opt_str(f, "image"@).unwrap(),
            email: dec_opt_str(f, "email"@).unwrap(),
            phone: dec_opt_str(f, "phone"@).unwrap(),
            url: dec_opt_str(f, "url"@).unwrap(),
            summary: dec_opt_str(f, "summary"@).unwrap(),
            location: dec_rec(f, "location"@, dec_location_f(), LocationView::empty()).unwrap(),
            profiles: dec_list(f, "profiles"@, dec_profile_f()).unwrap(),
        })
    } else {
        None
    }
}

pub open spec fn dec_basics(j: JsonV) -> Option<BasicsView> {
    match j {
        JsonV::Obj(f) => dec_basics_fields(f),
        _ => None,
    }
}

pub open spec fn dec_basics_f() -> spec_fn(JsonV) -> Option<BasicsView> {
    |j: JsonV| dec_basics(j)
}

/// The wire members of a [`LocationView`], in field order.
pub open spec fn enc_location_fields(v: LocationView) -> Seq<(Seq<char>, JsonV)> {
    seg("address"@, opt_str_val(v.address)) + seg("postalCode"@, opt_str_val(v.postal_code)) + seg("city"@, opt_str_val(v.city)) + seg("countryCode"@, opt_str_val(v.country_code)) + seg("region"@, opt_str_val(v.region))
}

pub open spec fn enc_location(v: LocationView) -> JsonV {
    JsonV::Obj(enc_location_fields(v))
}

pub open spec fn enc_location_f() -> spec_fn(LocationView) -> JsonV {
    |v: LocationView| enc_location(v)
}

/// What an object's members decode to as a [`LocationView`], if they do.
pub open spec fn dec_location_fields(f: Seq<(Seq<char>, JsonV)>) -> Option<LocationView> {
    if dec_opt_str(f, "address"@) is Some && dec_opt_str(f, "postalCode"@) is Some && dec_opt_str(f, "city"@) is Some && dec_opt_str(f, "countryCode"@) is Some && dec_opt_str(f, "region"@) is Some {
        Some(LocationView {
            address: dec_opt_str(f, "address"@).unwrap(),
            postal_code: dec_opt_str(f, "postalCode"@).unwrap(),
            city: dec_opt_str(f, "city"@).unwrap(),
            country_code: dec_opt_str(f, "countryCode"@).unwrap(),
            region: dec_opt_str(f, "region"@).unwrap(),
        })
    } else {
        None
    }
}

pub open spec fn dec_location(j: JsonV) -> Option<LocationView> {
    match j {
        JsonV::Obj(f) => dec_location_fields(f),
        _ => None,
    }
}

pub open spec fn dec_location_f() -> spec_fn(JsonV) -> Option<LocationView> {
    |j: JsonV| dec_location(j)
}

/// The wire members of a [`ProfileView`], in field order.
pub open spec fn enc_profile_fields(v: ProfileView) -> Seq<(Seq<char>, JsonV)> {
    seg("network"@, opt_str_val(v.network)) + seg("username"@, opt_str_val(v.username)) + seg("url"@, opt_str_val(v.url))
}

pub open spec fn enc_profile(v: ProfileView) -> JsonV {
    JsonV::Obj(enc_profile_fields(v))
}

pub open spec fn enc_profile_f() -> spec_fn(ProfileView) -> JsonV {
    |v: ProfileView| enc_profile(v)
}

/// What an object's members decode to as a [`ProfileView`], if they do.
pub open spec fn dec_profile_fields(f: Seq<(Seq<char>, JsonV)>) -> Option<ProfileView> {
    if dec_opt_str(f, "network"@) is Some && dec_opt_str(f, "username"@) is Some && dec_opt_str(f, "url"@) is Some {
        Some(ProfileView {
            network: dec_opt_str(f, "network"@).unwrap(),
            username: dec_opt_str(f, "username"@).unwrap(),
            url: dec_opt_str(f, "url"@).unwrap(),
        })
    } else {
        None
    }
}

pub open spec fn dec_profile(j: JsonV) -> Option<ProfileView> {
    match j {
        JsonV::Obj(f) => dec_profile_fields(f),
        _ => None,
    }
}

pub open spec fn dec_profile_f() -> spec_fn(JsonV) -> Option<ProfileView> {
    |j: JsonV| dec_profile(j)
}

/// The wire members of a [`WorkView`], in field order.
pub open spec fn enc_work_fields(v: WorkView) -> Seq<(Seq<char>, JsonV)> {
    seg("name"@, opt_str_val(v.name)) + seg("location"@, opt_str_val(v.location)) + seg("description"@, opt_str_val(v.description)) + seg("positions"@, list_val(v.positions.map_values(enc_position_f()))) + seg("position"@, opt_str_val(v.position)) + seg("url"@, opt_str_val(v.url)) + seg("startDate"@, opt_str_val(v.start_date)) + seg("endDate"@, opt_str_val(v.end_date)) + seg("highlights"@, list_val(v.highlights.map_values(jstr_f())))
}

pub open spec fn enc_work(v: WorkView) -> JsonV {
    JsonV::Obj(enc_work_fields(v))
}

pub open spec fn enc_work_f() -> spec_fn(WorkView) -> JsonV {
    |v: WorkView| enc_work(v)
}

/// What an object's members decode to as a [`WorkView`], if they do.
pub open spec fn dec_work_fields(f: Seq<(Seq<char>, JsonV)>) -> Option<WorkView> {
    if dec_opt_str(f, "name"@) is Some && dec_opt_str(f, "location"@) is Some && dec_opt_str(f, "description"@) is Some && dec_list(f, "positions"@, dec_position_f()) is Some && dec_opt_str(f, "position"@) is Some && dec_opt_str(f, "url"@) is Some && dec_opt_str(f, "startDate"@) is Some && dec_opt_str(f, "endDate"@) is Some && dec_list(f, "highlights"@, dec_str_f()) is Some {
        Some(WorkView {
            name: dec_opt_str(f, "name"@).unwrap(),
            location: dec_opt_str(f, "location"@).unwrap(),
            description: dec_opt_str(f, "description"@).unwrap(),
            positions: dec_list(f, "positions"@, dec_position_f()).unwrap(),
            position: dec_opt_str(f, "position"@).unwrap(),
            url: dec_opt_str(f, "url"@).unwrap(),
            start_date: dec_opt_str(f, "startDate"@).unwrap(),
            end_date: dec_opt_str(f, "endDate"@).unwrap(),
            highlights: dec_list(f, "highlights"@, dec_str_f()).unwrap(),
        })
    } else {
        None
    }
}

pub open spec fn dec_work(j: JsonV) -> Option<WorkView> {
    match j {
        JsonV::Obj(f) => dec_work_fields(f),
        _ => None,
    }
}

pub open spec fn dec_work_f() -> spec_fn(JsonV) -> Option<WorkView> {
    |j: JsonV| dec_work(j)
}

/// The wire members of a [`PositionView`], in field order.
pub open spec fn enc_position_fields(v: PositionView) -> Seq<(Seq<char>, JsonV)> {
    seg("title"@, Some(JsonV::Str(v.title))) + seg("startDate"@, opt_str_val(v.start_date)) + seg("endDate"@, opt_str_val(v.end_date))
}

pub open spec fn enc_position(v: PositionView) -> JsonV {
    JsonV::Obj(enc_position_fields(v))
}

pub open spec fn enc_position_f() -> spec_fn(PositionView) -> JsonV {
    |v: PositionView| enc_position(v)
}

/// What an object's members decode to as a [`PositionView`], if they do.
pub open spec fn dec_position_fields(f: Seq<(Seq<char>, JsonV)>) -> Option<PositionView> {
    if dec_req_str(f, "title"@) is Some && dec_opt_str(f, "startDate"@) is Some && dec_opt_str(f, "endDate"@) is Some {
        Some(PositionView {
            title: dec_req_str(f, "title"@).unwrap(),
            start_date: dec_opt_str(f, "startDate"@).unwrap(),
            end_date: dec_opt_str(f, "endDate"@).unwrap(),
        })
    } else {
        None
    }
}

pub open spec fn dec_position(j: JsonV) -> Option<PositionView> {
    match j {
        JsonV::Obj(f) => dec_position_fields(f),
        _ => None,
    }
}

pub open spec fn dec_position_f() -> spec_fn(JsonV) -> Option<PositionView> {
    |j: JsonV| dec_position(j)
}

/// The wire members of a [`VolunteerView`], in field order.
pub open spec fn enc_volunteer_fields(v: VolunteerView) -> Seq<(Seq<char>, JsonV)> {
    seg("organization"@, opt_str_val(v.organization)) + seg("position"@, opt_str_val(v.position)) + seg("url"@, opt_str_val(v.url)) + seg("startDate"@, opt_str_val(v.start_date)) + seg("endDate"@, opt_str_val(v.end_date)) + seg("summary"@, opt_str_val(v.summary)) + seg("highlights"@, list_val(v.highlights.map_values(jstr_f())))
}

pub open spec fn enc_volunteer(v: VolunteerView) -> JsonV {
    JsonV::Obj(enc_volunteer_fields(v))
}

pub open spec fn enc_volunteer_f() -> spec_fn(VolunteerView) -> JsonV {
    |v: VolunteerView| enc_volunteer(v)
}

/// What an object's members decode to as a [`VolunteerView`], if they do.
pub open spec fn dec_volunteer_fields(f: Seq<(Seq<char>, JsonV)>) -> Option<VolunteerView> {
    if dec_opt_str(f, "organization"@) is Some && dec_opt_str(f, "position"@) is Some && dec_opt_str(f, "url"@) is Some && dec_opt_str(f, "startDate"@) is Some && dec_opt_str(f, "endDate"@) is Some && dec_opt_str(f, "summary"@) is Some && dec_list(f, "highlights"@, dec_str_f()) is Some {
        Some(VolunteerView {
            organization: dec_opt_str(f, "organization"@).unwrap(),
            position: dec_opt_str(f, "position"@).unwrap(),
            url: dec_opt_str(f, "url"@).unwrap(),
            start_date: dec_opt_str(f, "startDate"@).unwrap(),
            end_date: dec_opt_str(f, "endDate"@).unwrap(),
            summary: dec_opt_str(f, "summary"@).unwrap(),
            highlights: dec_list(f, "highlights"@, dec_str_f()).unwrap(),
        })
    } else {
        None
    }
}

pub open spec fn dec_volunteer(j: JsonV) -> Option<VolunteerView> {
    match j {
        JsonV::Obj(f) => dec_volunteer_fields(f),
        _ => None,
    }
}

pub open spec fn dec_volunteer_f() -> spec_fn(JsonV) -> Option<VolunteerView> {
    |j: JsonV| dec_volunteer(j)
}

/// The wire members of a [`EducationView`], in field order.
pub open spec fn enc_education_fields(v: EducationView) -> Seq<(Seq<char>, JsonV)> {
    seg("institution"@, opt_str_val(v.institution)) + seg("url"@, opt_str_val(v.url)) + seg("degrees"@, list_val(v.degrees.map_values(jstr_f()))) + seg("area"@, opt_str_val(v.area)) + seg("studyType"@, opt_str_val(v.study_type)) + seg("startDate"@, opt_str_val(v.start_date)) + seg("endDate"@, opt_str_val(v.end_date)) + seg("score"@, opt_str_val(v.score)) + seg("courses"@, list_val(v.courses.map_values(jstr_f())))
}

pub open spec fn enc_education(v: EducationView) -> JsonV {
    JsonV::Obj(enc_education_fields(v))
}

pub open spec fn enc_education_f() -> spec_fn(EducationView) -> JsonV {
    |v: EducationView| enc_education(v)
}

/// What an object's members decode to as a [`EducationView`], if they do.
pub open spec fn dec_education_fields(f: Seq<(Seq<char>, JsonV)>) -> Option<EducationView> {
    if dec_opt_str(f, "institution"@) is Some && dec_opt_str(f, "url"@) is Some && dec_list(f, "degrees"@, dec_str_f()) is Some && dec_opt_str(f, "area"@) is Some && dec_opt_str(f, "studyType"@) is Some && dec_opt_str(f, "startDate"@) is Some && dec_opt_str(f, "endDate"@) is Some && dec_opt_str(f, "score"@) is Some && dec_list(f, "courses"@, dec_str_f()) is Some {
        Some(EducationView {
            institution: dec_opt_str(f, "institution"@).unwrap(),
            url: dec_opt_str(f, "url"@).unwrap(),
            degrees: dec_list(f, "degrees"@, dec_str_f()).unwrap(),
            area: dec_opt_str(f, "area"@).unwrap(),
            study_type: dec_opt_str(f, "studyType"@).unwrap(),
            start_date: dec_opt_str(f, "startDate"@).unwrap(),
            end_date: dec_opt_str(f, "endDate"@).unwrap(),
            score: dec_opt_str(f, "score"@).unwrap(),
            courses: dec_list(f, "courses"@, dec_str_f()).unwrap(),
        })
    } else {
        None
    }
}

pub open spec fn dec_education(j: JsonV) -> Option<EducationView> {
    match j {
        JsonV::Obj(f) => dec_education_fields(f),
        _ => None,
    }
}

pub open spec fn dec_education_f() -> spec_fn(JsonV) -> Option<EducationView> {
    |j: JsonV| dec_education(j)
}

/// The wire members of a [`AwardView`], in field order.
pub open spec fn enc_award_fields(v: AwardView) -> Seq<(Seq<char>, JsonV)> {
    seg("title"@, opt_str_val(v.title)) + seg("date"@, opt_str_val(v.date)) + seg("awarder"@, opt_str_val(v.awarder)) + seg("summary"@, opt_str_val(v.summary))
}

pub open spec fn enc_award(v: AwardView) -> JsonV {
    JsonV::Obj(enc_award_fields(v))
}

pub open spec fn enc_award_f() -> spec_fn(AwardView) -> JsonV {
    |v: AwardView| enc_award(v)
}

/// What an object's members decode to as a [`AwardView`], if they do.
pub open spec fn dec_award_fields(f: Seq<(Seq<char>, JsonV)>) -> Option<AwardView> {
    if dec_opt_str(f, "title"@) is Some && dec_opt_str(f, "date"@) is Some && dec_opt_str(f, "awarder"@) is Some && dec_opt_str(f, "summary"@) is Some {
        Some(AwardView {
            title: dec_opt_str(f, "title"@).unwrap(),
            date: dec_opt_str(f, "date"@).unwrap(),
            awarder: dec_opt_str(f, "awarder"@).unwrap(),
            summary: dec_opt_str(f, "summary"@).unwrap(),
        })
    } else {
        None
    }
}

pub open spec fn dec_award(j: JsonV) -> Option<AwardView> {
    match j {
        JsonV::Obj(f) => dec_award_fields(f),
        _ => None,
    }
}

pub open spec fn dec_award_f() -> spec_fn(JsonV) -> Option<AwardView> {
    |j: JsonV| dec_award(j)
}

/// The wire members of a [`CertificateView`], in field order.
pub open spec fn enc_certificate_fields(v: CertificateView) -> Seq<(Seq<char>, JsonV)> {
    seg("name"@, opt_str_val(v.name)) + seg("date"@, opt_str_val(v.date)) + seg("url"@, opt_str_val(v.url)) + seg("issuer"@, opt_str_val(v.issuer))
}

pub open spec fn enc_certificate(v: CertificateView) -> JsonV {
    JsonV::Obj(enc_certificate_fields(v))
}

pub open spec fn enc_certificate_f() -> spec_fn(CertificateView) -> JsonV {
    |v: CertificateView| enc_certificate(v)
}

/// What an object's members decode to as a [`CertificateView`], if they do.
pub open spec fn dec_certificate_fields(f: Seq<(Seq<char>, JsonV)>) -> Option<CertificateView> {
    if dec_opt_str(f, "name"@) is Some && dec_opt_str(f, "date"@) is Some && dec_opt_str(f, "url"@) is Some && dec_opt_str(f, "issuer"@) is Some {
        Some(CertificateView {
            name: dec_opt_str(f, "name"@).unwrap(),
            date: dec_opt_str(f, "date"@).unwrap(),
            url: dec_opt_str(f, "url"@).unwrap(),
            issuer: dec_opt_str(f, "issuer"@).unwrap(),
        })
    } else {
        None
    }
}

pub open spec fn dec_certificate(j: JsonV) -> Option<CertificateView> {
    match j {
        JsonV::Obj(f) => dec_certificate_fields(f),
        _ => None,
    }
}

pub open spec fn dec_certificate_f() -> spec_fn(JsonV) -> Option<CertificateView> {
    |j: JsonV| dec_certificate(j)
}

/// The wire members of a [`PublicationView`], in field order.
pub open spec fn enc_publication_fields(v: PublicationView) -> Seq<(Seq<char>, JsonV)> {
    seg("name"@, opt_str_val(v.name)) + seg("publisher"@, opt_str_val(v.publisher)) + seg("releaseDate"@, opt_str_val(v.release_date)) + seg("url"@, opt_str_val(v.url)) + seg("summary"@, opt_str_val(v.summary))
}

pub open spec fn enc_publication(v: PublicationView) -> JsonV {
    JsonV::Obj(enc_publication_fields(v))
}

pub open spec fn enc_publication_f() -> spec_fn(PublicationView) -> JsonV {
    |v: PublicationView| enc_publication(v)
}

/// What an object's members decode to as a [`PublicationView`], if they do.
pub open spec fn dec_publication_fields(f: Seq<(Seq<char>, JsonV)>) -> Option<PublicationView> {
    if dec_opt_str(f, "name"@) is Some && dec_opt_str(f, "publisher"@) is Some && dec_opt_str(f, "releaseDate"@) is Some && dec_opt_str(f, "url"@) is Some && dec_opt_str(f, "summary"@) is Some {
        Some(PublicationView {
            name: dec_opt_str(f, "name"@).unwrap(),
            publisher: dec_opt_str(f, "publisher"@).unwrap(),
            release_date: dec_opt_str(f, "releaseDate"@).unwrap(),
            url: dec_opt_str(f, "url"@).unwrap(),
            summary: dec_opt_str(f, "summary"@).unwrap(),
        })
    } else {
        None
    }
}

pub open spec fn dec_publication(j: JsonV) -> Option<PublicationView> {
    match j {
        JsonV::Obj(f) => dec_publication_fields(f),
        _ => None,
    }
}

pub open spec fn dec_publication_f() -> spec_fn(JsonV) -> Option<PublicationView> {
    |j: JsonV| dec_publication(j)
}

/// The wire members of a [`SkillView`], in field order.
pub open spec fn enc_skill_fields(v: SkillView) -> Seq<(Seq<char>, JsonV)> {
    seg("name"@, opt_str_val(v.name)) + seg("level"@, opt_str_val(v.level)) + seg("keywords"@, list_val(v.keywords.map_values(jstr_f())))
}

pub open spec fn enc_skill(v: SkillView) -> JsonV {
    JsonV::Obj(enc_skill_fields(v))
}

pub open spec fn enc_skill_f() -> spec_fn(SkillView) -> JsonV {
    |v: SkillView| enc_skill(v)
}

/// What an object's members decode to as a [`SkillView`], if they do.
pub open spec fn dec_skill_fields(f: Seq<(Seq<char>, JsonV)>) -> Option<SkillView> {
    if dec_opt_str(f, "name"@) is Some && dec_opt_str(f, "level"@) is Some && dec_list(f, "keywords"@, dec_str_f()) is Some {
        Some(SkillView {
            name: dec_opt_str(f, "name"@).unwrap(),
            level: dec_opt_str(f, "level"@).unwrap(),
            keywords: dec_list(f, "keywords"@, dec_str_f()).unwrap(),
        })
    } else {
        None
    }
}

pub open spec fn dec_skill(j: JsonV) -> Option<SkillView> {
    match j {
        JsonV::Obj(f) => dec_skill_fields(f),
        _ => None,
    }
}

pub open spec fn dec_skill_f() -> spec_fn(JsonV) -> Option<SkillView> {
    |j: JsonV| dec_skill(j)
}

/// The wire members of a [`LanguageView`], in field order.
pub open spec fn enc_language_fields(v: LanguageView) -> Seq<(Seq<char>, JsonV)> {
    seg("language"@, opt_str_val(v.language)) + seg("fluency"@, opt_str_val(v.fluency))
}

pub open spec fn enc_language(v: LanguageView) -> JsonV {
    JsonV::Obj(enc_language_fields(v))
}

pub open spec fn enc_language_f() -> spec_fn(LanguageView) -> JsonV {
    |v: LanguageView| enc_language(v)
}

/// What an object's members decode to as a [`LanguageView`], if they do.
pub open spec fn dec_language_fields(f: Seq<(Seq<char>, JsonV)>) -> Option<LanguageView> {
    if dec_opt_str(f, "language"@) is Some && dec_opt_str(f, "fluency"@) is Some {
        Some(LanguageView {
            language: dec_opt_str(f, "language"@).unwrap(),
            fluency: dec_opt_str(f, "fluency"@).unwrap(),
        })
    } else {
        None
    }
}

pub open spec fn dec_language(j: JsonV) -> Option<LanguageView> {
    match j {
        JsonV::Obj(f) => dec_language_fields(f),
        _ => None,
    }
}

pub open spec fn dec_language_f() -> spec_fn(JsonV) -> Option<LanguageView> {
    |j: JsonV| dec_language(j)
}

/// The wire members of a [`InterestView`], in field order.
pub open spec fn enc_interest_fields(v: InterestView) -> Seq<(Seq<char>, JsonV)> {
    seg("name"@, opt_str_val(v.name)) + seg("keywords"@, list_val(v.keywords.map_values(jstr_f())))
}

pub open spec fn enc_interest(v: InterestView) -> JsonV {
    JsonV::Obj(enc_interest_fields(v))
}

pub open spec fn enc_interest_f() -> spec_fn(InterestView) -> JsonV {
    |v: InterestView| enc_interest(v)
}

/// What an object's members decode to as a [`InterestView`], if they do.
pub open spec fn dec_interest_fields(f: Seq<(Seq<char>, JsonV)>) -> Option<InterestView> {
    if dec_opt_str(f, "name"@) is Some && dec_list(f, "keywords"@, dec_str_f()) is Some {
        Some(InterestView {
            name: dec_opt_str(f, "name"@).unwrap(),
            keywords: dec_list(f, "keywords"@, dec_str_f()).unwrap(),
        })
    } else {
        None
    }
}

pub open spec fn dec_interest(j: JsonV) -> Option<InterestView> {
    match j {
        JsonV::Obj(f) => dec_interest_fields(f),
        _ => None,
    }
}

pub open spec fn dec_interest_f() -> spec_fn(JsonV) -> Option<InterestView> {
    |j: JsonV| dec_interest(j)
}

/// The wire members of a [`ReferenceView`], in field order.
pub open spec fn enc_reference_fields(v: ReferenceView) -> Seq<(Seq<char>, JsonV)> {
    seg("name"@, opt_str_val(v.name)) + seg("reference"@, opt_str_val(v.reference))
}

pub open spec fn enc_reference(v: ReferenceView) -> JsonV {
    JsonV::Obj(enc_reference_fields(v))
}

pub open spec fn enc_reference_f() -> spec_fn(ReferenceView) -> JsonV {
    |v: ReferenceView| enc_reference(v)
}

/// What an object's members decode to as a [`ReferenceView`], if they do.
pub open spec fn dec_reference_fields(f: Seq<(Seq<char>, JsonV)>) -> Option<ReferenceView> {
    if dec_opt_str(f, "name"@) is Some && dec_opt_str(f, "reference"@) is Some {
        Some(ReferenceView {
            name: dec_opt_str(f, "name"@).unwrap(),
            reference: dec_opt_str(f, "reference"@).unwrap(),
        })
    } else {
        None
    }
}

pub open spec fn dec_reference(j: JsonV) -> Option<ReferenceView> {
    match j {
        JsonV::Obj(f) => dec_reference_fields(f),
        _ => None,
    }
}

pub open spec fn dec_reference_f() -> spec_fn(JsonV) -> Option<ReferenceView> {
    |j: JsonV| dec_reference(j)
}

/// The wire members of a [`ProjectView`], in field order.
pub open spec fn enc_project_fields(v: ProjectView) -> Seq<(Seq<char>, JsonV)> {
    seg("name"@, opt_str_val(v.name)) + seg("description"@, opt_str_val(v.description)) + seg("highlights"@, list_val(v.highlights.map_values(jstr_f()))) + seg("duties"@, list_val(v.duties.map_values(jstr_f()))) + seg("profits"@, list_val(v.profits.map_values(jstr_f()))) + seg("features"@, list_val(v.features.map_values(enc_feature_f()))) + seg("keywords"@, list_val(v.keywords.map_values(jstr_f()))) + seg("startDate"@, opt_str_val(v.start_date)) + seg("endDate"@, opt_str_val(v.end_date)) + seg("url"@, opt_str_val(v.url)) + seg("roles"@, list_val(v.roles.map_values(jstr_f()))) + seg("entity"@, opt_str_val(v.entity)) + seg("type"@, opt_str_val(v.type_))
}

pub open spec fn enc_project(v: ProjectView) -> JsonV {
    JsonV::Obj(enc_project_fields(v))
}

pub open spec fn enc_project_f() -> spec_fn(ProjectView) -> JsonV {
    |v: ProjectView| enc_project(v)
}

/// What an object's members decode to as a [`ProjectView`], if they do.
pub open spec fn dec_project_fields(f: Seq<(Seq<char>, JsonV)>) -> Option<ProjectView> {
    if dec_opt_str(f, "name"@) is Some && dec_opt_str(f, "description"@) is Some && dec_list(f, "highlights"@, dec_str_f()) is Some && dec_list(f, "duties"@, dec_str_f()) is Some && dec_list(f, "profits"@, dec_str_f()) is Some && dec_list(f, "features"@, dec_feature_f()) is Some && dec_list(f, "keywords"@, dec_str_f()) is Some && dec_opt_str(f, "startDate"@) is Some && dec_opt_str(f, "endDate"@) is Some && dec_opt_str(f, "url"@) is Some && dec_list(f, "roles"@, dec_str_f()) is Some && dec_opt_str(f, "entity"@) is Some && dec_opt_str(f, "type"@) is Some {
        Some(ProjectView {
            name: dec_opt_str(f, "name"@).unwrap(),
            description: dec_opt_str(f, "description"@).unwrap(),
            highlights: dec_list(f, "highlights"@, dec_str_f()).unwrap(),
            duties: dec_list(f, "duties"@, dec_str_f()).unwrap(),
            profits: dec_list(f, "profits"@, dec_str_f()).unwrap(),
            features: dec_list(f, "features"@, dec_feature_f()).unwrap(),
            keywords: dec_list(f, "keywords"@, dec_str_f()).unwrap(),
            start_date: dec_opt_str(f, "startDate"@).unwrap(),
            end_date: dec_opt_str(f, "endDate"@).unwrap(),
            url: dec_opt_str(f, "url"@).unwrap(),
            roles: dec_list(f, "roles"@, dec_str_f()).unwrap(),
            entity: dec_opt_str(f, "entity"@).unwrap(),
            type_: dec_opt_str(f, "type"@).unwrap(),
        })
    } else {
        None
    }
}

pub open spec fn dec_project(j: JsonV) -> Option<ProjectView> {
    match j {
        JsonV::Obj(f) => dec_project_fields(f),
        _ => None,
    }
}

pub open spec fn dec_project_f() -> spec_fn(JsonV) -> Option<ProjectView> {
    |j: JsonV| dec_project(j)
}

/// The wire members of a [`FeatureView`], in field order.
pub open spec fn enc_feature_fields(v: FeatureView) -> Seq<(Seq<char>, JsonV)> {
    seg("name"@, Some(JsonV::Str(v.name))) + seg("situation"@, Some(JsonV::Str(v.situation))) + seg("task"@, Some(JsonV::Str(v.task))) + seg("action"@, Some(JsonV::Str(v.action))) + seg("result"@, Some(JsonV::Str(v.result)))
}

pub open spec fn enc_feature(v: FeatureView) -> JsonV {
    JsonV::Obj(enc_feature_fields(v))
}

pub open spec fn enc_feature_f() -> spec_fn(FeatureView) -> JsonV {
    |v: FeatureView| enc_feature(v)
}

/// What an object's members decode to as a [`FeatureView`], if they do.
pub open spec fn dec_feature_fields(f: Seq<(Seq<char>, JsonV)>) -> Option<FeatureView> {
    if dec_req_str(f, "name"@) is Some && dec_req_str(f, "situation"@) is Some && dec_req_str(f, "task"@) is Some && dec_req_str(f, "action"@) is Some && dec_req_str(f, "result"@) is Some {
        Some(FeatureView {
            name: dec_req_str(f, "name"@).unwrap(),
            situation: dec_req_str(f, "situation"@).unwrap(),
            task: dec_req_str(f, "task"@).unwrap(),
            action: dec_req_str(f, "action"@).unwrap(),
            result: dec_req_str(f, "result"@).unwrap(),
        })
    } else {
        None
    }
}

pub open spec fn dec_feature(j: JsonV) -> Option<FeatureView> {
    match j {
        JsonV::Obj(f) => dec_feature_fields(f),
        _ => None,
    }
}

pub open spec fn dec_feature_f() -> spec_fn(JsonV) -> Option<FeatureView> {
    |j: JsonV| dec_feature(j)
}

/// The wire members of a [`MetaView`], in field order.
pub open spec fn enc_meta_fields(v: MetaView) -> Seq<(Seq<char>, JsonV)> {
    seg("canonical"@, opt_str_val(v.canonical)) + seg("version"@, opt_str_val(v.version)) + seg("lastModified"@, opt_str_val(v.last_modified))
}

pub open spec fn enc_meta(v: MetaView) -> JsonV {
    JsonV::Obj(enc_meta_fields(v))
}

pub open spec fn enc_meta_f() -> spec_fn(MetaView) -> JsonV {
    |v: MetaView| enc_meta(v)
}

/// What an object's members decode to as a [`MetaView`], if they do.
pub open spec fn dec_meta_fields(f: Seq<(Seq<char>, JsonV)>) -> Option<MetaView> {
    if dec_opt_str(f, "canonical"@) is Some && dec_opt_str(f, "version"@) is Some && dec_opt_str(f, "lastModified"@) is Some {
        Some(MetaView {
            canonical: dec_opt_str(f, "canonical"@).unwrap(),
            version: dec_opt_str(f, "version"@).unwrap(),
            last_modified: dec_opt_str(f, "lastModified"@).unwrap(),
        })
    } else {
        None
    }
}

pub open spec fn dec_meta(j: JsonV) -> Option<MetaView> {
    match j {
        JsonV::Obj(f) => dec_meta_fields(f),
        _ => None,
    }
}

pub open spec fn dec_meta_f() -> spec_fn(JsonV) -> Option<MetaView> {
    |j: JsonV| dec_meta(j)
}

} // verus!
