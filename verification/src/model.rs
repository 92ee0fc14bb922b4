//! The schema's entity types: pure value data with a specification-level
//! mirror (`*View`) reached through `deep_view`. Every optional field
//! defaults to absent and every collection to empty.

use vstd::prelude::*;

verus! {

/// An accomplishment, e.g. `Increased profits by 20%`.
///
/// A semantic wrapper around one string: distinct from a bare string and
/// from the other wrapper types, and transparent on the wire.
#[derive(Debug, Clone, PartialEq)]
pub struct Highlight(pub String);

impl DeepView for Highlight {
    type V = Seq<char>;

    open spec fn deep_view(&self) -> Seq<char> {
        self.0.deep_view()
    }
}

impl Highlight {
    /// The wrapped string, as shown to a reader.
    pub fn display(&self) -> (r: String)
        ensures
            r@ == self.deep_view(),
    {
        self.0.clone()
    }
}

/// A course taken, e.g. `H1302 - Introduction to American history`.
///
/// A semantic wrapper around one string: distinct from a bare string and
/// from the other wrapper types, and transparent on the wire.
#[derive(Debug, Clone, PartialEq)]
pub struct Course(pub String);

impl DeepView for Course {
    type V = Seq<char>;

    open spec fn deep_view(&self) -> Seq<char> {
        self.0.deep_view()
    }
}

impl Course {
    /// The wrapped string, as shown to a reader.
    pub fn display(&self) -> (r: String)
        ensures
            r@ == self.deep_view(),
    {
        self.0.clone()
    }
}

/// A keyword, e.g. `HTML`.
///
/// A semantic wrapper around one string: distinct from a bare string and
/// from the other wrapper types, and transparent on the wire.
#[derive(Debug, Clone, PartialEq)]
pub struct Keyword(pub String);

impl DeepView for Keyword {
    type V = Seq<char>;

    open spec fn deep_view(&self) -> Seq<char> {
        self.0.deep_view()
    }
}

impl Keyword {
    /// The wrapped string, as shown to a reader.
    pub fn display(&self) -> (r: String)
        ensures
            r@ == self.deep_view(),
    {
        self.0.clone()
    }
}

/// A duty carried out on a project.
///
/// A semantic wrapper around one string: distinct from a bare string and
/// from the other wrapper types, and transparent on the wire.
#[derive(Debug, Clone, PartialEq)]
pub struct Duty(pub String);

impl DeepView for Duty {
    type V = Seq<char>;

    open spec fn deep_view(&self) -> Seq<char> {
        self.0.deep_view()
    }
}

impl Duty {
    /// The wrapped string, as shown to a reader.
    pub fn display(&self) -> (r: String)
        ensures
            r@ == self.deep_view(),
    {
        self.0.clone()
    }
}

/// A profit achieved on a project.
///
/// A semantic wrapper around one string: distinct from a bare string and
/// from the other wrapper types, and transparent on the wire.
#[derive(Debug, Clone, PartialEq)]
pub struct Profit(pub String);

impl DeepView for Profit {
    type V = Seq<char>;

    open spec fn deep_view(&self) -> Seq<char> {
        self.0.deep_view()
    }
}

impl Profit {
    /// The wrapped string, as shown to a reader.
    pub fn display(&self) -> (r: String)
        ensures
            r@ == self.deep_view(),
    {
        self.0.clone()
    }
}

/// A role on a project, e.g. `Team Lead`.
///
/// A semantic wrapper around one string: distinct from a bare string and
/// from the other wrapper types, and transparent on the wire.
#[derive(Debug, Clone, PartialEq)]
pub struct Role(pub String);

impl DeepView for Role {
    type V = Seq<char>;

    open spec fn deep_view(&self) -> Seq<char> {
        self.0.deep_view()
    }
}

impl Role {
    /// The wrapped string, as shown to a reader.
    pub fn display(&self) -> (r: String)
        ensures
            r@ == self.deep_view(),
    {
        self.0.clone()
    }
}

/// The root of a resume document.
#[derive(Debug, Clone, PartialEq)]
pub struct Resume {
    pub basics: Option<Basics>,
    pub work: Vec<Work>,
    pub volunteer: Vec<Volunteer>,
    pub education: Vec<Education>,
    pub awards: Vec<Award>,
    pub certificates: Vec<Certificate>,
    pub publications: Vec<Publication>,
    pub skills: Vec<Skill>,
    pub languages: Vec<Language>,
    pub interests: Vec<Interest>,
    pub references: Vec<Reference>,
    pub projects: Vec<Project>,
    pub side_projects: Vec<Project>,
    pub meta: Option<Meta>,
}

/// The mathematical value of a [`Resume`].
#[verifier::ext_equal]
pub struct ResumeView {
    pub basics: Option<BasicsView>,
    pub work: Seq<WorkView>,
    pub volunteer: Seq<VolunteerView>,
    pub education: Seq<EducationView>,
    pub awards: Seq<AwardView>,
    pub certificates: Seq<CertificateView>,
    pub publications: Seq<PublicationView>,
    pub skills: Seq<SkillView>,
    pub languages: Seq<LanguageView>,
    pub interests: Seq<InterestView>,
    pub references: Seq<ReferenceView>,
    pub projects: Seq<ProjectView>,
    pub side_projects: Seq<ProjectView>,
    pub meta: Option<MetaView>,
}

impl DeepView for Resume {
    type V = ResumeView;

    open spec fn deep_view(&self) -> ResumeView {
        ResumeView {
            basics: self.basics.deep_view(),
            work: self.work.deep_view(),
            volunteer: self.volunteer.deep_view(),
            education: self.education.deep_view(),
            awards: self.awards.deep_view(),
            certificates: self.certificates.deep_view(),
            publications: self.publications.deep_view(),
            skills: self.skills.deep_view(),
            languages: self.languages.deep_view(),
            interests: self.interests.deep_view(),
            references: self.references.deep_view(),
            projects: self.projects.deep_view(),
            side_projects: self.side_projects.deep_view(),
            meta: self.meta.deep_view(),
        }
    }
}

impl ResumeView {
    /// The value with every optional field absent and every collection
    /// empty.
    pub open spec fn empty() -> ResumeView {
        ResumeView {
            basics: None,
            work: seq![],
            volunteer: seq![],
            education: seq![],
            awards: seq![],
            certificates: seq![],
            publications: seq![],
            skills: seq![],
            languages: seq![],
            interests: seq![],
            references: seq![],
            projects: seq![],
            side_projects: seq![],
            meta: None,
        }
    }
}

impl Default for Resume {
    fn default() -> (r: Resume)
        ensures
            r.deep_view() == ResumeView::empty(),
    {
        let r = Resume {
            basics: None,
            work: Vec::new(),
            volunteer: Vec::new(),
            education: Vec::new(),
            awards: Vec::new(),
            certificates: Vec::new(),
            publications: Vec::new(),
            skills: Vec::new(),
            languages: Vec::new(),
            interests: Vec::new(),
            references: Vec::new(),
            projects: Vec::new(),
            side_projects: Vec::new(),
            meta: None,
        };
        proof {
            assert(r.deep_view() =~= ResumeView::empty());
        }
        r
    }
}

/// Identity, contact and summary information.
#[derive(Debug, Clone, PartialEq)]
pub struct Basics {
    pub name: Option<String>,
    pub label: Option<String>,
    pub image: Option<String>,
    pub email: Option<String>,
    pub phone: Option<String>,
    pub url: Option<String>,
    pub summary: Option<String>,
    pub location: Location,
    pub profiles: Vec<Profile>,
}

/// The mathematical value of a [`Basics`].
#[verifier::ext_equal]
pub struct BasicsView {
    pub name: Option<Seq<char>>,
    pub label: Option<Seq<char>>,
    pub image: Option<Seq<char>>,
    pub email: Option<Seq<char>>,
    pub phone: Option<Seq<char>>,
    pub url: Option<Seq<char>>,
    pub summary: Option<Seq<char>>,
    pub location: LocationView,
    pub profiles: Seq<ProfileView>,
}

impl DeepView for Basics {
    type V = BasicsView;

    open spec fn deep_view(&self) -> BasicsView {
        BasicsView {
            name: self.name.deep_view(),
            label: self.label.deep_view(),
            image: self.image.deep_view(),
            email: self.email.deep_view(),
            phone: self.phone.deep_view(),
            url: self.url.deep_view(),
            summary: self.summary.deep_view(),
            location: self.location.deep_view(),
            profiles: self.profiles.deep_view(),
        }
    }
}

impl BasicsView {
    /// The value with every optional field absent and every collection
    /// empty.
    pub open spec fn empty() -> BasicsView {
        BasicsView {
            name: None,
            label: None,
            image: None,
            email: None,
            phone: None,
            url: None,
            summary: None,
            location: LocationView::empty(),
            profiles: seq![],
        }
    }
}

impl Default for Basics {
    fn default() -> (r: Basics)
        ensures
            r.deep_view() == BasicsView::empty(),
    {
        let r = Basics {
            name: None,
            label: None,
            image: None,
            email: None,
            phone: None,
            url: None,
            summary: None,
            location: Location::default(),
            profiles: Vec::new(),
        };
        proof {
            assert(r.deep_view() =~= BasicsView::empty());
        }
        r
    }
}

/// A postal location; always carried by value under `Basics`.
#[derive(Debug, Clone, PartialEq)]
pub struct Location {
    pub address: Option<String>,
    pub postal_code: Option<String>,
    pub city: Option<String>,
    pub country_code: Option<String>,
    pub region: Option<String>,
}

/// The mathematical value of a [`Location`].
#[verifier::ext_equal]
pub struct LocationView {
    pub address: Option<Seq<char>>,
    pub postal_code: Option<Seq<char>>,
    pub city: Option<Seq<char>>,
    pub country_code: Option<Seq<char>>,
    pub region: Option<Seq<char>>,
}

impl DeepView for Location {
    type V = LocationView;

    open spec fn deep_view(&self) -> LocationView {
        LocationView {
            address: self.address.deep_view(),
            postal_code: self.postal_code.deep_view(),
            city: self.city.deep_view(),
            country_code: self.country_code.deep_view(),
            region: self.region.deep_view(),
        }
    }
}

impl LocationView {
    /// The value with every optional field absent and every collection
    /// empty.
    pub open spec fn empty() -> LocationView {
        LocationView {
            address: None,
            postal_code: None,
            city: None,
            country_code: None,
            region: None,
        }
    }
}

impl Default for Location {
    fn default() -> (r: Location)
        ensures
            r.deep_view() == LocationView::empty(),
    {
        let r = Location {
            address: None,
            postal_code: None,
            city: None,
            country_code: None,
            region: None,
        };
        proof {
            assert(r.deep_view() =~= LocationView::empty());
        }
        r
    }
}

/// A social-network identity.
#[derive(Debug, Clone, PartialEq)]
pub struct Profile {
    pub network: Option<String>,
    pub username: Option<String>,
    pub url: Option<String>,
}

/// The mathematical value of a [`Profile`].
#[verifier::ext_equal]
pub struct ProfileView {
    pub network: Option<Seq<char>>,
    pub username: Option<Seq<char>>,
    pub url: Option<Seq<char>>,
}

impl DeepView for Profile {
    type V = ProfileView;

    open spec fn deep_view(&self) -> ProfileView {
        ProfileView {
            network: self.network.deep_view(),
            username: self.username.deep_view(),
            url: self.url.deep_view(),
        }
    }
}

impl ProfileView {
    /// The value with every optional field absent and every collection
    /// empty.
    pub open spec fn empty() -> ProfileView {
        ProfileView {
            network: None,
            username: None,
            url: None,
        }
    }
}

impl Default for Profile {
    fn default() -> (r: Profile)
        ensures
            r.deep_view() == ProfileView::empty(),
    {
        let r = Profile {
            network: None,
            username: None,
            url: None,
        };
        proof {
            assert(r.deep_view() =~= ProfileView::empty());
        }
        r
    }
}

/// One employment entry.
#[derive(Debug, Clone, PartialEq)]
pub struct Work {
    pub name: Option<String>,
    pub location: Option<String>,
    pub description: Option<String>,
    pub positions: Vec<Position>,
    pub position: Option<String>,
    pub url: Option<String>,
    pub start_date: Option<String>,
    pub end_date: Option<String>,
    pub highlights: Vec<Highlight>,
}

/// The mathematical value of a [`Work`].
#[verifier::ext_equal]
pub struct WorkView {
    pub name: Option<Seq<char>>,
    pub location: Option<Seq<char>>,
    pub description: Option<Seq<char>>,
    pub positions: Seq<PositionView>,
    pub position: Option<Seq<char>>,
    pub url: Option<Seq<char>>,
    pub start_date: Option<Seq<char>>,
    pub end_date: Option<Seq<char>>,
    pub highlights: Seq<Seq<char>>,
}

impl DeepView for Work {
    type V = WorkView;

    open spec fn deep_view(&self) -> WorkView {
        WorkView {
            name: self.name.deep_view(),
            location: self.location.deep_view(),
            description: self.description.deep_view(),
            positions: self.positions.deep_view(),
            position: self.position.deep_view(),
            url: self.url.deep_view(),
            start_date: self.start_date.deep_view(),
            end_date: self.end_date.deep_view(),
            highlights: self.highlights.deep_view(),
        }
    }
}

impl WorkView {
    /// The value with every optional field absent and every collection
    /// empty.
    pub open spec fn empty() -> WorkView {
        WorkView {
            name: None,
            location: None,
            description: None,
            positions: seq![],
            position: None,
            url: None,
            start_date: None,
            end_date: None,
            highlights: seq![],
        }
    }
}

impl Default for Work {
    fn default() -> (r: Work)
        ensures
            r.deep_view() == WorkView::empty(),
    {
        let r = Work {
            name: None,
            location: None,
            description: None,
            positions: Vec::new(),
            position: None,
            url: None,
            start_date: None,
            end_date: None,
            highlights: Vec::new(),
        };
        proof {
            assert(r.deep_view() =~= WorkView::empty());
        }
        r
    }
}

/// A role held during an employment entry; the title is required.
#[derive(Debug, Clone, PartialEq)]
pub struct Position {
    pub title: String,
    pub start_date: Option<String>,
    pub end_date: Option<String>,
}

/// The mathematical value of a [`Position`].
#[verifier::ext_equal]
pub struct PositionView {
    pub title: Seq<char>,
    pub start_date: Option<Seq<char>>,
    pub end_date: Option<Seq<char>>,
}

impl DeepView for Position {
    type V = PositionView;

    open spec fn deep_view(&self) -> PositionView {
        PositionView {
            title: self.title.deep_view(),
            start_date: self.start_date.deep_view(),
            end_date: self.end_date.deep_view(),
        }
    }
}

impl PositionView {
    /// The value with every optional field absent and every collection
    /// empty.
    pub open spec fn empty() -> PositionView {
        PositionView {
            title: seq![],
            start_date: None,
            end_date: None,
        }
    }
}

impl Default for Position {
    fn default() -> (r: Position)
        ensures
            r.deep_view() == PositionView::empty(),
    {
        let r = Position {
            title: String::new(),
            start_date: None,
            end_date: None,
        };
        proof {
            assert(r.deep_view() =~= PositionView::empty());
        }
        r
    }
}

/// One volunteering entry.
#[derive(Debug, Clone, PartialEq)]
pub struct Volunteer {
    pub organization: Option<String>,
    pub position: Option<String>,
    pub url: Option<String>,
    pub start_date: Option<String>,
    pub end_date: Option<String>,
    pub summary: Option<String>,
    pub highlights: Vec<Highlight>,
}

/// The mathematical value of a [`Volunteer`].
#[verifier::ext_equal]
pub struct VolunteerView {
    pub organization: Option<Seq<char>>,
    pub position: Option<Seq<char>>,
    pub url: Option<Seq<char>>,
    pub start_date: Option<Seq<char>>,
    pub end_date: Option<Seq<char>>,
    pub summary: Option<Seq<char>>,
    pub highlights: Seq<Seq<char>>,
}

impl DeepView for Volunteer {
    type V = VolunteerView;

    open spec fn deep_view(&self) -> VolunteerView {
        VolunteerView {
            organization: self.organization.deep_view(),
            position: self.position.deep_view(),
            url: self.url.deep_view(),
            start_date: self.start_date.deep_view(),
            end_date: self.end_date.deep_view(),
            summary: self.summary.deep_view(),
            highlights: self.highlights.deep_view(),
        }
    }
}

impl VolunteerView {
    /// The value with every optional field absent and every collection
    /// empty.
    pub open spec fn empty() -> VolunteerView {
        VolunteerView {
            organization: None,
            position: None,
            url: None,
            start_date: None,
            end_date: None,
            summary: None,
            highlights: seq![],
        }
    }
}

impl Default for Volunteer {
    fn default() -> (r: Volunteer)
        ensures
            r.deep_view() == VolunteerView::empty(),
    {
        let r = Volunteer {
            organization: None,
            position: None,
            url: None,
            start_date: None,
            end_date: None,
            summary: None,
            highlights: Vec::new(),
        };
        proof {
            assert(r.deep_view() =~= VolunteerView::empty());
        }
        r
    }
}

/// One education entry.
#[derive(Debug, Clone, PartialEq)]
pub struct Education {
    pub institution: Option<String>,
    pub url: Option<String>,
    pub degrees: Vec<String>,
    pub area: Option<String>,
    pub study_type: Option<String>,
    pub start_date: Option<String>,
    pub end_date: Option<String>,
    pub score: Option<String>,
    pub courses: Vec<Course>,
}

/// The mathematical value of a [`Education`].
#[verifier::ext_equal]
pub struct EducationView {
    pub institution: Option<Seq<char>>,
    pub url: Option<Seq<char>>,
    pub degrees: Seq<Seq<char>>,
    pub area: Option<Seq<char>>,
    pub study_type: Option<Seq<char>>,
    pub start_date: Option<Seq<char>>,
    pub end_date: Option<Seq<char>>,
    pub score: Option<Seq<char>>,
    pub courses: Seq<Seq<char>>,
}

impl DeepView for Education {
    type V = EducationView;

    open spec fn deep_view(&self) -> EducationView {
        EducationView {
            institution: self.institution.deep_view(),
            url: self.url.deep_view(),
            degrees: self.degrees.deep_view(),
            area: self.area.deep_view(),
            study_type: self.study_type.deep_view(),
            start_date: self.start_date.deep_view(),
            end_date: self.end_date.deep_view(),
            score: self.score.deep_view(),
            courses: self.courses.deep_view(),
        }
    }
}

impl EducationView {
    /// The value with every optional field absent and every collection
    /// empty.
    pub open spec fn empty() -> EducationView {
        EducationView {
            institution: None,
            url: None,
            degrees: seq![],
            area: None,
            study_type: None,
            start_date: None,
            end_date: None,
            score: None,
            courses: seq![],
        }
    }
}

impl Default for Education {
    fn default() -> (r: Education)
        ensures
            r.deep_view() == EducationView::empty(),
    {
        let r = Education {
            institution: None,
            url: None,
            degrees: Vec::new(),
            area: None,
            study_type: None,
            start_date: None,
            end_date: None,
            score: None,
            courses: Vec::new(),
        };
        proof {
            assert(r.deep_view() =~= EducationView::empty());
        }
        r
    }
}

/// An award received.
#[derive(Debug, Clone, PartialEq)]
pub struct Award {
    pub title: Option<String>,
    pub date: Option<String>,
    pub awarder: Option<String>,
    pub summary: Option<String>,
}

/// The mathematical value of a [`Award`].
#[verifier::ext_equal]
pub struct AwardView {
    pub title: Option<Seq<char>>,
    pub date: Option<Seq<char>>,
    pub awarder: Option<Seq<char>>,
    pub summary: Option<Seq<char>>,
}

impl DeepView for Award {
    type V = AwardView;

    open spec fn deep_view(&self) -> AwardView {
        AwardView {
            title: self.title.deep_view(),
            date: self.date.deep_view(),
            awarder: self.awarder.deep_view(),
            summary: self.summary.deep_view(),
        }
    }
}

impl AwardView {
    /// The value with every optional field absent and every collection
    /// empty.
    pub open spec fn empty() -> AwardView {
        AwardView {
            title: None,
            date: None,
            awarder: None,
            summary: None,
        }
    }
}

impl Default for Award {
    fn default() -> (r: Award)
        ensures
            r.deep_view() == AwardView::empty(),
    {
        let r = Award {
            title: None,
            date: None,
            awarder: None,
            summary: None,
        };
        proof {
            assert(r.deep_view() =~= AwardView::empty());
        }
        r
    }
}

/// A certificate received.
#[derive(Debug, Clone, PartialEq)]
pub struct Certificate {
    pub name: Option<String>,
    pub date: Option<String>,
    pub url: Option<String>,
    pub issuer: Option<String>,
}

/// The mathematical value of a [`Certificate`].
#[verifier::ext_equal]
pub struct CertificateView {
    pub name: Option<Seq<char>>,
    pub date: Option<Seq<char>>,
    pub url: Option<Seq<char>>,
    pub issuer: Option<Seq<char>>,
}

impl DeepView for Certificate {
    type V = CertificateView;

    open spec fn deep_view(&self) -> CertificateView {
        CertificateView {
            name: self.name.deep_view(),
            date: self.date.deep_view(),
            url: self.url.deep_view(),
            issuer: self.issuer.deep_view(),
        }
    }
}

impl CertificateView {
    /// The value with every optional field absent and every collection
    /// empty.
    pub open spec fn empty() -> CertificateView {
        CertificateView {
            name: None,
            date: None,
            url: None,
            issuer: None,
        }
    }
}

impl Default for Certificate {
    fn default() -> (r: Certificate)
        ensures
            r.deep_view() == CertificateView::empty(),
    {
        let r = Certificate {
            name: None,
            date: None,
            url: None,
            issuer: None,
        };
        proof {
            assert(r.deep_view() =~= CertificateView::empty());
        }
        r
    }
}

/// A publication authored.
#[derive(Debug, Clone, PartialEq)]
pub struct Publication {
    pub name: Option<String>,
    pub publisher: Option<String>,
    pub release_date: Option<String>,
    pub url: Option<String>,
    pub summary: Option<String>,
}

/// The mathematical value of a [`Publication`].
#[verifier::ext_equal]
pub struct PublicationView {
    pub name: Option<Seq<char>>,
    pub publisher: Option<Seq<char>>,
    pub release_date: Option<Seq<char>>,
    pub url: Option<Seq<char>>,
    pub summary: Option<Seq<char>>,
}

impl DeepView for Publication {
    type V = PublicationView;

    open spec fn deep_view(&self) -> PublicationView {
        PublicationView {
            name: self.name.deep_view(),
            publisher: self.publisher.deep_view(),
            release_date: self.release_date.deep_view(),
            url: self.url.deep_view(),
            summary: self.summary.deep_view(),
        }
    }
}

impl PublicationView {
    /// The value with every optional field absent and every collection
    /// empty.
    pub open spec fn empty() -> PublicationView {
        PublicationView {
            name: None,
            publisher: None,
            release_date: None,
            url: None,
            summary: None,
        }
    }
}

impl Default for Publication {
    fn default() -> (r: Publication)
        ensures
            r.deep_view() == PublicationView::empty(),
    {
        let r = Publication {
            name: None,
            publisher: None,
            release_date: None,
            url: None,
            summary: None,
        };
        proof {
            assert(r.deep_view() =~= PublicationView::empty());
        }
        r
    }
}

/// A professional skill with its keywords.
#[derive(Debug, Clone, PartialEq)]
pub struct Skill {
    pub name: Option<String>,
    pub level: Option<String>,
    pub keywords: Vec<Keyword>,
}

/// The mathematical value of a [`Skill`].
#[verifier::ext_equal]
pub struct SkillView {
    pub name: Option<Seq<char>>,
    pub level: Option<Seq<char>>,
    pub keywords: Seq<Seq<char>>,
}

impl DeepView for Skill {
    type V = SkillView;

    open spec fn deep_view(&self) -> SkillView {
        SkillView {
            name: self.name.deep_view(),
            level: self.level.deep_view(),
            keywords: self.keywords.deep_view(),
        }
    }
}

impl SkillView {
    /// The value with every optional field absent and every collection
    /// empty.
    pub open spec fn empty() -> SkillView {
        SkillView {
            name: None,
            level: None,
            keywords: seq![],
        }
    }
}

impl Default for Skill {
    fn default() -> (r: Skill)
        ensures
            r.deep_view() == SkillView::empty(),
    {
        let r = Skill {
            name: None,
            level: None,
            keywords: Vec::new(),
        };
        proof {
            assert(r.deep_view() =~= SkillView::empty());
        }
        r
    }
}

/// A spoken language and its fluency.
#[derive(Debug, Clone, PartialEq)]
pub struct Language {
    pub language: Option<String>,
    pub fluency: Option<String>,
}

/// The mathematical value of a [`Language`].
#[verifier::ext_equal]
pub struct LanguageView {
    pub language: Option<Seq<char>>,
    pub fluency: Option<Seq<char>>,
}

impl DeepView for Language {
    type V = LanguageView;

    open spec fn deep_view(&self) -> LanguageView {
        LanguageView {
            language: self.language.deep_view(),
            fluency: self.fluency.deep_view(),
        }
    }
}

impl LanguageView {
    /// The value with every optional field absent and every collection
    /// empty.
    pub open spec fn empty() -> LanguageView {
        LanguageView {
            language: None,
            fluency: None,
        }
    }
}

impl Default for Language {
    fn default() -> (r: Language)
        ensures
            r.deep_view() == LanguageView::empty(),
    {
        let r = Language {
            language: None,
            fluency: None,
        };
        proof {
            assert(r.deep_view() =~= LanguageView::empty());
        }
        r
    }
}

/// An interest with its keywords.
#[derive(Debug, Clone, PartialEq)]
pub struct Interest {
    pub name: Option<String>,
    pub keywords: Vec<Keyword>,
}

/// The mathematical value of a [`Interest`].
#[verifier::ext_equal]
pub struct InterestView {
    pub name: Option<Seq<char>>,
    pub keywords: Seq<Seq<char>>,
}

impl DeepView for Interest {
    type V = InterestView;

    open spec fn deep_view(&self) -> InterestView {
        InterestView {
            name: self.name.deep_view(),
            keywords: self.keywords.deep_view(),
        }
    }
}

impl InterestView {
    /// The value with every optional field absent and every collection
    /// empty.
    pub open spec fn empty() -> InterestView {
        InterestView {
            name: None,
            keywords: seq![],
        }
    }
}

impl Default for Interest {
    fn default() -> (r: Interest)
        ensures
            r.deep_view() == InterestView::empty(),
    {
        let r = Interest {
            name: None,
            keywords: Vec::new(),
        };
        proof {
            assert(r.deep_view() =~= InterestView::empty());
        }
        r
    }
}

/// A reference received.
#[derive(Debug, Clone, PartialEq)]
pub struct Reference {
    pub name: Option<String>,
    pub reference: Option<String>,
}

/// The mathematical value of a [`Reference`].
#[verifier::ext_equal]
pub struct ReferenceView {
    pub name: Option<Seq<char>>,
    pub reference: Option<Seq<char>>,
}

impl DeepView for Reference {
    type V = ReferenceView;

    open spec fn deep_view(&self) -> ReferenceView {
        ReferenceView {
            name: self.name.deep_view(),
            reference: self.reference.deep_view(),
        }
    }
}

impl ReferenceView {
    /// The value with every optional field absent and every collection
    /// empty.
    pub open spec fn empty() -> ReferenceView {
        ReferenceView {
            name: None,
            reference: None,
        }
    }
}

impl Default for Reference {
    fn default() -> (r: Reference)
        ensures
            r.deep_view() == ReferenceView::empty(),
    {
        let r = Reference {
            name: None,
            reference: None,
        };
        proof {
            assert(r.deep_view() =~= ReferenceView::empty());
        }
        r
    }
}

/// A career project.
#[derive(Debug, Clone, PartialEq)]
pub struct Project {
    pub name: Option<String>,
    pub description: Option<String>,
    pub highlights: Vec<Highlight>,
    pub duties: Vec<Duty>,
    pub profits: Vec<Profit>,
    pub features: Vec<Feature>,
    pub keywords: Vec<Keyword>,
    pub start_date: Option<String>,
    pub end_date: Option<String>,
    pub url: Option<String>,
    pub roles: Vec<Role>,
    pub entity: Option<String>,
    pub type_: Option<String>,
}

/// The mathematical value of a [`Project`].
#[verifier::ext_equal]
pub struct ProjectView {
    pub name: Option<Seq<char>>,
    pub description: Option<Seq<char>>,
    pub highlights: Seq<Seq<char>>,
    pub duties: Seq<Seq<char>>,
    pub profits: Seq<Seq<char>>,
    pub features: Seq<FeatureView>,
    pub keywords: Seq<Seq<char>>,
    pub start_date: Option<Seq<char>>,
    pub end_date: Option<Seq<char>>,
    pub url: Option<Seq<char>>,
    pub roles: Seq<Seq<char>>,
    pub entity: Option<Seq<char>>,
    pub type_: Option<Seq<char>>,
}

impl DeepView for Project {
    type V = ProjectView;

    open spec fn deep_view(&self) -> ProjectView {
        ProjectView {
            name: self.name.deep_view(),
            description: self.description.deep_view(),
            highlights: self.highlights.deep_view(),
            duties: self.duties.deep_view(),
            profits: self.profits.deep_view(),
            features: self.features.deep_view(),
            keywords: self.keywords.deep_view(),
            start_date: self.start_date.deep_view(),
            end_date: self.end_date.deep_view(),
            url: self.url.deep_view(),
            roles: self.roles.deep_view(),
            entity: self.entity.deep_view(),
            type_: self.type_.deep_view(),
        }
    }
}

impl ProjectView {
    /// The value with every optional field absent and every collection
    /// empty.
    pub open spec fn empty() -> ProjectView {
        ProjectView {
            name: None,
            description: None,
            highlights: seq![],
            duties: seq![],
            profits: seq![],
            features: seq![],
            keywords: seq![],
            start_date: None,
            end_date: None,
            url: None,
            roles: seq![],
            entity: None,
            type_: None,
        }
    }
}

impl Default for Project {
    fn default() -> (r: Project)
        ensures
            r.deep_view() == ProjectView::empty(),
    {
        let r = Project {
            name: None,
            description: None,
            highlights: Vec::new(),
            duties: Vec::new(),
            profits: Vec::new(),
            features: Vec::new(),
            keywords: Vec::new(),
            start_date: None,
            end_date: None,
            url: None,
            roles: Vec::new(),
            entity: None,
            type_: None,
        };
        proof {
            assert(r.deep_view() =~= ProjectView::empty());
        }
        r
    }
}

/// A structured project feature; every field is required.
#[derive(Debug, Clone, PartialEq)]
pub struct Feature {
    pub name: String,
    pub situation: String,
    pub task: String,
    pub action: String,
    pub result: String,
}

/// The mathematical value of a [`Feature`].
#[verifier::ext_equal]
pub struct FeatureView {
    pub name: Seq<char>,
    pub situation: Seq<char>,
    pub task: Seq<char>,
    pub action: Seq<char>,
    pub result: Seq<char>,
}

impl DeepView for Feature {
    type V = FeatureView;

    open spec fn deep_view(&self) -> FeatureView {
        FeatureView {
            name: self.name.deep_view(),
            situation: self.situation.deep_view(),
            task: self.task.deep_view(),
            action: self.action.deep_view(),
            result: self.result.deep_view(),
        }
    }
}

impl FeatureView {
    /// The value with every optional field absent and every collection
    /// empty.
    pub open spec fn empty() -> FeatureView {
        FeatureView {
            name: seq![],
            situation: seq![],
            task: seq![],
            action: seq![],
            result: seq![],
        }
    }
}

/// Schema version and tooling configuration.
#[derive(Debug, Clone, PartialEq)]
pub struct Meta {
    pub canonical: Option<String>,
    pub version: Option<String>,
    pub last_modified: Option<String>,
}

/// The mathematical value of a [`Meta`].
#[verifier::ext_equal]
pub struct MetaView {
    pub canonical: Option<Seq<char>>,
    pub version: Option<Seq<char>>,
    pub last_modified: Option<Seq<char>>,
}

impl DeepView for Meta {
    type V = MetaView;

    open spec fn deep_view(&self) -> MetaView {
        MetaView {
            canonical: self.canonical.deep_view(),
            version: self.version.deep_view(),
            last_modified: self.last_modified.deep_view(),
        }
    }
}

impl MetaView {
    /// The value with every optional field absent and every collection
    /// empty.
    pub open spec fn empty() -> MetaView {
        MetaView {
            canonical: None,
            version: None,
            last_modified: None,
        }
    }
}

impl Default for Meta {
    fn default() -> (r: Meta)
        ensures
            r.deep_view() == MetaView::empty(),
    {
        let r = Meta {
            canonical: None,
            version: None,
            last_modified: None,
        };
        proof {
            assert(r.deep_view() =~= MetaView::empty());
        }
        r
    }
}

} // verus!
