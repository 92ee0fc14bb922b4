//! The validation pass: the date pattern, and a walk that collects every
//! date field in the tree whose present value fails the pattern, with the
//! field's path. The pattern is the schema's fixed one: a four-digit year
//! led by 1 or 2, an optional month whose first digit is 0 or 1, and an
//! optional day whose first digit is 0 to 3; it is not calendar-aware.

use vstd::prelude::*;
use vstd::string::StrSliceExecFns;
use crate::model::{Resume, Work, Position, Volunteer, Education, Award, Certificate, Publication, Project, ResumeView, WorkView, PositionView, VolunteerView, EducationView, AwardView, CertificateView, PublicationView, ProjectView};
use crate::report::{PathSeg, PathSegV, Violation, ViolationView, ValidationErrors, clone_path};
use crate::util::{lemma_vec_deep, lemma_seq_deep_push, lemma_take_succ};

verus! {

broadcast use lemma_vec_deep, lemma_seq_deep_push;

pub open spec fn is_digit(c: char) -> bool {
    ('0' as u32) <= (c as u32) && (c as u32) <= ('9' as u32)
}

/// A four-digit year whose leading digit is 1 or 2.
pub open spec fn year_ok(s: Seq<char>) -> bool {
    &&& ('1' as u32) <= (s[0] as u32) && (s[0] as u32) <= ('2' as u32)
    &&& is_digit(s[1])
    &&& is_digit(s[2])
    &&& is_digit(s[3])
}

/// A dash and a two-digit month whose leading digit is 0 or 1.
pub open spec fn month_ok(s: Seq<char>) -> bool {
    &&& s[4] == '-'
    &&& ('0' as u32) <= (s[5] as u32) && (s[5] as u32) <= ('1' as u32)
    &&& is_digit(s[6])
}

/// A dash and a two-digit day whose leading digit is 0 to 3.
pub open spec fn day_ok(s: Seq<char>) -> bool {
    &&& s[7] == '-'
    &&& ('0' as u32) <= (s[8] as u32) && (s[8] as u32) <= ('3' as u32)
    &&& is_digit(s[9])
}

/// The schema's date pattern: `YYYY`, `YYYY-MM` or `YYYY-MM-DD` under the
/// digit constraints above.
pub open spec fn is_valid_date(s: Seq<char>) -> bool {
    ||| s.len() == 4 && year_ok(s)
    ||| s.len() == 7 && year_ok(s) && month_ok(s)
    ||| s.len() == 10 && year_ok(s) && month_ok(s) && day_ok(s)
}

fn digit_x(c: char) -> (b: bool)
    ensures
        b == is_digit(c),
{
    ('0' as u32) <= (c as u32) && (c as u32) <= ('9' as u32)
}

/// Whether `s` matches the schema's date pattern.
pub fn check_date(s: &str) -> (b: bool)
    ensures
        b == is_valid_date(s@),
{
    let n = s.unicode_len();
    if n != 4 && n != 7 && n != 10 {
        return false;
    }
    let c0 = s.get_char(0);
    let year = (('1' as u32) <= (c0 as u32) && (c0 as u32) <= ('2' as u32))
        && digit_x(s.get_char(1)) && digit_x(s.get_char(2)) && digit_x(s.get_char(3));
    if n == 4 {
        return year;
    }
    let c5 = s.get_char(5);
    let month = s.get_char(4) == '-'
        && (('0' as u32) <= (c5 as u32) && (c5 as u32) <= ('1' as u32))
        && digit_x(s.get_char(6));
    if n == 7 {
        return year && month;
    }
    let c8 = s.get_char(8);
    let day = s.get_char(7) == '-'
        && (('0' as u32) <= (c8 as u32) && (c8 as u32) <= ('3' as u32))
        && digit_x(s.get_char(9));
    year && month && day
}

/// What one optional date field contributes to the violation list.
pub open spec fn viols_date(
    prefix: Seq<PathSegV>,
    name: Seq<char>,
    v: Option<Seq<char>>,
) -> Seq<ViolationView> {
    match v {
        Option::Some(s) => if is_valid_date(s) {
            seq![]
        } else {
            seq![ViolationView { path: prefix.push(PathSegV::Field(name)), value: s }]
        },
        Option::None => seq![],
    }
}

/// The violations inside one [`PositionView`], in field order.
pub open spec fn viols_position(prefix: Seq<PathSegV>, v: PositionView) -> Seq<ViolationView> {
    viols_date(prefix, "startDate"@, v.start_date) + viols_date(prefix, "endDate"@, v.end_date)
}

/// The violations inside a collection of [`PositionView`], element by
/// element, each under its index.
pub open spec fn viols_position_list(prefix: Seq<PathSegV>, s: Seq<PositionView>) -> Seq<ViolationView>
    decreases s.len(),
{
    if s.len() == 0 {
        seq![]
    } else {
        viols_position_list(prefix, s.drop_last()) + viols_position(
            prefix.push(PathSegV::Index(s.len() - 1)),
            s.last(),
        )
    }
}

/// The violations inside one [`WorkView`], in field order.
pub open spec fn viols_work(prefix: Seq<PathSegV>, v: WorkView) -> Seq<ViolationView> {
    viols_position_list(prefix.push(PathSegV::Field("positions"@)), v.positions) + viols_date(prefix, "startDate"@, v.start_date) + viols_date(prefix, "endDate"@, v.end_date)
}

/// The violations inside a collection of [`WorkView`], element by
/// element, each under its index.
pub open spec fn viols_work_list(prefix: Seq<PathSegV>, s: Seq<WorkView>) -> Seq<ViolationView>
    decreases s.len(),
{
    if s.len() == 0 {
        seq![]
    } else {
        viols_work_list(prefix, s.drop_last()) + viols_work(
            prefix.push(PathSegV::Index(s.len() - 1)),
            s.last(),
        )
    }
}

/// The violations inside one [`VolunteerView`], in field order.
pub open spec fn viols_volunteer(prefix: Seq<PathSegV>, v: VolunteerView) -> Seq<ViolationView> {
    viols_date(prefix, "startDate"@, v.start_date) + viols_date(prefix, "endDate"@, v.end_date)
}

/// The violations inside a collection of [`VolunteerView`], element by
/// element, each under its index.
pub open spec fn viols_volunteer_list(prefix: Seq<PathSegV>, s: Seq<VolunteerView>) -> Seq<ViolationView>
    decreases s.len(),
{
    if s.len() == 0 {
        seq![]
    } else {
        viols_volunteer_list(prefix, s.drop_last()) + viols_volunteer(
            prefix.push(PathSegV::Index(s.len() - 1)),
            s.last(),
        )
    }
}

/// The violations inside one [`EducationView`], in field order.
pub open spec fn viols_education(prefix: Seq<PathSegV>, v: EducationView) -> Seq<ViolationView> {
    viols_date(prefix, "startDate"@, v.start_date) + viols_date(prefix, "endDate"@, v.end_date)
}

/// The violations inside a collection of [`EducationView`], element by
/// element, each under its index.
pub open spec fn viols_education_list(prefix: Seq<PathSegV>, s: Seq<EducationView>) -> Seq<ViolationView>
    decreases s.len(),
{
    if s.len() == 0 {
        seq![]
    } else {
        viols_education_list(prefix, s.drop_last()) + viols_education(
            prefix.push(PathSegV::Index(s.len() - 1)),
            s.last(),
        )
    }
}

/// The violations inside one [`AwardView`], in field order.
pub open spec fn viols_award(prefix: Seq<PathSegV>, v: AwardView) -> Seq<ViolationView> {
    viols_date(prefix, "date"@, v.date)
}

/// The violations inside a collection of [`AwardView`], element by
/// element, each under its index.
pub open spec fn viols_award_list(prefix: Seq<PathSegV>, s: Seq<AwardView>) -> Seq<ViolationView>
    decreases s.len(),
{
    if s.len() == 0 {
        seq![]
    } else {
        viols_award_list(prefix, s.drop_last()) + viols_award(
            prefix.push(PathSegV::Index(s.len() - 1)),
            s.last(),
        )
    }
}

/// The violations inside one [`CertificateView`], in field order.
pub open spec fn viols_certificate(prefix: Seq<PathSegV>, v: CertificateView) -> Seq<ViolationView> {
    viols_date(prefix, "date"@, v.date)
}

/// The violations inside a collection of [`CertificateView`], element by
/// element, each under its index.
pub open spec fn viols_certificate_list(prefix: Seq<PathSegV>, s: Seq<CertificateView>) -> Seq<ViolationView>
    decreases s.len(),
{
    if s.len() == 0 {
        seq![]
    } else {
        viols_certificate_list(prefix, s.drop_last()) + viols_certificate(
            prefix.push(PathSegV::Index(s.len() - 1)),
            s.last(),
        )
    }
}

/// The violations inside one [`PublicationView`], in field order.
pub open spec fn viols_publication(prefix: Seq<PathSegV>, v: PublicationView) -> Seq<ViolationView> {
    viols_date(prefix, "releaseDate"@, v.release_date)
}

/// The violations inside a collection of [`PublicationView`], element by
/// element, each under its index.
pub open spec fn viols_publication_list(prefix: Seq<PathSegV>, s: Seq<PublicationView>) -> Seq<ViolationView>
    decreases s.len(),
{
    if s.len() == 0 {
        seq![]
    } else {
        viols_publication_list(prefix, s.drop_last()) + viols_publication(
            prefix.push(PathSegV::Index(s.len() - 1)),
            s.last(),
        )
    }
}

/// The violations inside one [`ProjectView`], in field order.
pub open spec fn viols_project(prefix: Seq<PathSegV>, v: ProjectView) -> Seq<ViolationView> {
    viols_date(prefix, "startDate"@, v.start_date) + viols_date(prefix, "endDate"@, v.end_date)
}

/// The violations inside a collection of [`ProjectView`], element by
/// element, each under its index.
pub open spec fn viols_project_list(prefix: Seq<PathSegV>, s: Seq<ProjectView>) -> Seq<ViolationView>
    decreases s.len(),
{
    if s.len() == 0 {
        seq![]
    } else {
        viols_project_list(prefix, s.drop_last()) + viols_project(
            prefix.push(PathSegV::Index(s.len() - 1)),
            s.last(),
        )
    }
}

/// Every violation in a tree, in walk order.
pub open spec fn viols_resume(v: ResumeView) -> Seq<ViolationView> {
    viols_work_list(seq![PathSegV::Field("work"@)], v.work) + viols_volunteer_list(seq![PathSegV::Field("volunteer"@)], v.volunteer) + viols_education_list(seq![PathSegV::Field("education"@)], v.education) + viols_award_list(seq![PathSegV::Field("awards"@)], v.awards) + viols_certificate_list(seq![PathSegV::Field("certificates"@)], v.certificates) + viols_publication_list(seq![PathSegV::Field("publications"@)], v.publications) + viols_project_list(seq![PathSegV::Field("projects"@)], v.projects) + viols_project_list(seq![PathSegV::Field("sideProjects"@)], v.side_projects)
}

fn collect_date(out: &mut Vec<Violation>, prefix: &Vec<PathSeg>, name: &str, v: &Option<String>)
    ensures
        final(out).deep_view() == old(out).deep_view() + viols_date(prefix.deep_view(), name@, v.deep_view()),
{
    match v {
        Some(s) => {
            if !check_date(s.as_str()) {
                let mut path = clone_path(prefix);
                path.push(PathSeg::Field(name.to_owned()));
                out.push(Violation { path, value: s.clone() });
                proof {
                    assert(out.deep_view() =~= old(out).deep_view() + viols_date(
                        prefix.deep_view(), name@, v.deep_view()));
                }
            } else {
                proof {
                    assert(out.deep_view() =~= old(out).deep_view() + viols_date(
                        prefix.deep_view(), name@, v.deep_view()));
                }
            }
        },
        None => {
            proof {
                assert(out.deep_view() =~= old(out).deep_view() + viols_date(
                    prefix.deep_view(), name@, v.deep_view()));
            }
        },
    }
}

fn collect_position(out: &mut Vec<Violation>, prefix: &Vec<PathSeg>, v: &Position)
    ensures
        final(out).deep_view() == old(out).deep_view() + viols_position(prefix.deep_view(), v.deep_view()),
{
    collect_date(out, prefix, "startDate", &v.start_date);
    collect_date(out, prefix, "endDate", &v.end_date);
    proof {
        assert(out.deep_view() =~= old(out).deep_view() + viols_position(
            prefix.deep_view(), v.deep_view()));
    }
}

fn collect_position_list(out: &mut Vec<Violation>, prefix: &Vec<PathSeg>, items: &Vec<Position>)
    ensures
        final(out).deep_view() == old(out).deep_view() + viols_position_list(prefix.deep_view(), items.deep_view()),
{
    let n = items.len();
    proof {
        assert(viols_position_list(prefix.deep_view(), items.deep_view().take(0)) =~= seq![]);
        assert(out.deep_view() =~= out.deep_view() + seq![]);
    }
    for i in 0..n
        invariant
            n == items.len(),
            out.deep_view() == old(out).deep_view() + viols_position_list(
                prefix.deep_view(), items.deep_view().take(i as int)),
    {
        let mut sub = clone_path(prefix);
        sub.push(PathSeg::Index(i));
        collect_position(out, &sub, &items[i]);
        proof {
            lemma_take_succ(items.deep_view(), i as int);
            let dv = items.deep_view();
            assert(dv.take(i + 1).drop_last() =~= dv.take(i as int));
            assert(dv[i as int] == items@[i as int].deep_view());
            assert(out.deep_view() =~= old(out).deep_view() + viols_position_list(
                prefix.deep_view(), dv.take(i + 1)));
        }
    }
    proof {
        assert(items.deep_view().take(n as int) =~= items.deep_view());
    }
}

fn collect_work(out: &mut Vec<Violation>, prefix: &Vec<PathSeg>, v: &Work)
    ensures
        final(out).deep_view() == old(out).deep_view() + viols_work(prefix.deep_view(), v.deep_view()),
{
    let mut sub = clone_path(prefix);
    sub.push(PathSeg::Field("positions".to_owned()));
    collect_position_list(out, &sub, &v.positions);
    collect_date(out, prefix, "startDate", &v.start_date);
    collect_date(out, prefix, "endDate", &v.end_date);
    proof {
        assert(out.deep_view() =~= old(out).deep_view() + viols_work(
            prefix.deep_view(), v.deep_view()));
    }
}

fn collect_work_list(out: &mut Vec<Violation>, prefix: &Vec<PathSeg>, items: &Vec<Work>)
    ensures
        final(out).deep_view() == old(out).deep_view() + viols_work_list(prefix.deep_view(), items.deep_view()),
{
    let n = items.len();
    proof {
        assert(viols_work_list(prefix.deep_view(), items.deep_view().take(0)) =~= seq![]);
        assert(out.deep_view() =~= out.deep_view() + seq![]);
    }
    for i in 0..n
        invariant
            n == items.len(),
            out.deep_view() == old(out).deep_view() + viols_work_list(
                prefix.deep_view(), items.deep_view().take(i as int)),
    {
        let mut sub = clone_path(prefix);
        sub.push(PathSeg::Index(i));
        collect_work(out, &sub, &items[i]);
        proof {
            lemma_take_succ(items.deep_view(), i as int);
            let dv = items.deep_view();
            assert(dv.take(i + 1).drop_last() =~= dv.take(i as int));
            assert(dv[i as int] == items@[i as int].deep_view());
            assert(out.deep_view() =~= old(out).deep_view() + viols_work_list(
                prefix.deep_view(), dv.take(i + 1)));
        }
    }
    proof {
        assert(items.deep_view().take(n as int) =~= items.deep_view());
    }
}

fn collect_volunteer(out: &mut Vec<Violation>, prefix: &Vec<PathSeg>, v: &Volunteer)
    ensures
        final(out).deep_view() == old(out).deep_view() + viols_volunteer(prefix.deep_view(), v.deep_view()),
{
    collect_date(out, prefix, "startDate", &v.start_date);
    collect_date(out, prefix, "endDate", &v.end_date);
    proof {
        assert(out.deep_view() =~= old(out).deep_view() + viols_volunteer(
            prefix.deep_view(), v.deep_view()));
    }
}

fn collect_volunteer_list(out: &mut Vec<Violation>, prefix: &Vec<PathSeg>, items: &Vec<Volunteer>)
    ensures
        final(out).deep_view() == old(out).deep_view() + viols_volunteer_list(prefix.deep_view(), items.deep_view()),
{
    let n = items.len();
    proof {
        assert(viols_volunteer_list(prefix.deep_view(), items.deep_view().take(0)) =~= seq![]);
        assert(out.deep_view() =~= out.deep_view() + seq![]);
    }
    for i in 0..n
        invariant
            n == items.len(),
            out.deep_view() == old(out).deep_view() + viols_volunteer_list(
                prefix.deep_view(), items.deep_view().take(i as int)),
    {
        let mut sub = clone_path(prefix);
        sub.push(PathSeg::Index(i));
        collect_volunteer(out, &sub, &items[i]);
        proof {
            lemma_take_succ(items.deep_view(), i as int);
            let dv = items.deep_view();
            assert(dv.take(i + 1).drop_last() =~= dv.take(i as int));
            assert(dv[i as int] == items@[i as int].deep_view());
            assert(out.deep_view() =~= old(out).deep_view() + viols_volunteer_list(
                prefix.deep_view(), dv.take(i + 1)));
        }
    }
    proof {
        assert(items.deep_view().take(n as int) =~= items.deep_view());
    }
}

fn collect_education(out: &mut Vec<Violation>, prefix: &Vec<PathSeg>, v: &Education)
    ensures
        final(out).deep_view() == old(out).deep_view() + viols_education(prefix.deep_view(), v.deep_view()),
{
    collect_date(out, prefix, "startDate", &v.start_date);
    collect_date(out, prefix, "endDate", &v.end_date);
    proof {
        assert(out.deep_view() =~= old(out).deep_view() + viols_education(
            prefix.deep_view(), v.deep_view()));
    }
}

fn collect_education_list(out: &mut Vec<Violation>, prefix: &Vec<PathSeg>, items: &Vec<Education>)
    ensures
        final(out).deep_view() == old(out).deep_view() + viols_education_list(prefix.deep_view(), items.deep_view()),
{
    let n = items.len();
    proof {
        assert(viols_education_list(prefix.deep_view(), items.deep_view().take(0)) =~= seq![]);
        assert(out.deep_view() =~= out.deep_view() + seq![]);
    }
    for i in 0..n
        invariant
            n == items.len(),
            out.deep_view() == old(out).deep_view() + viols_education_list(
                prefix.deep_view(), items.deep_view().take(i as int)),
    {
        let mut sub = clone_path(prefix);
        sub.push(PathSeg::Index(i));
        collect_education(out, &sub, &items[i]);
        proof {
            lemma_take_succ(items.deep_view(), i as int);
            let dv = items.deep_view();
            assert(dv.take(i + 1).drop_last() =~= dv.take(i as int));
            assert(dv[i as int] == items@[i as int].deep_view());
            assert(out.deep_view() =~= old(out).deep_view() + viols_education_list(
                prefix.deep_view(), dv.take(i + 1)));
        }
    }
    proof {
        assert(items.deep_view().take(n as int) =~= items.deep_view());
    }
}

fn collect_award(out: &mut Vec<Violation>, prefix: &Vec<PathSeg>, v: &Award)
    ensures
        final(out).deep_view() == old(out).deep_view() + viols_award(prefix.deep_view(), v.deep_view()),
{
    collect_date(out, prefix, "date", &v.date);
    proof {
        assert(out.deep_view() =~= old(out).deep_view() + viols_award(
            prefix.deep_view(), v.deep_view()));
    }
}

fn collect_award_list(out: &mut Vec<Violation>, prefix: &Vec<PathSeg>, items: &Vec<Award>)
    ensures
        final(out).deep_view() == old(out).deep_view() + viols_award_list(prefix.deep_view(), items.deep_view()),
{
    let n = items.len();
    proof {
        assert(viols_award_list(prefix.deep_view(), items.deep_view().take(0)) =~= seq![]);
        assert(out.deep_view() =~= out.deep_view() + seq![]);
    }
    for i in 0..n
        invariant
            n == items.len(),
            out.deep_view() == old(out).deep_view() + viols_award_list(
                prefix.deep_view(), items.deep_view().take(i as int)),
    {
        let mut sub = clone_path(prefix);
        sub.push(PathSeg::Index(i));
        collect_award(out, &sub, &items[i]);
        proof {
            lemma_take_succ(items.deep_view(), i as int);
            let dv = items.deep_view();
            assert(dv.take(i + 1).drop_last() =~= dv.take(i as int));
            assert(dv[i as int] == items@[i as int].deep_view());
            assert(out.deep_view() =~= old(out).deep_view() + viols_award_list(
                prefix.deep_view(), dv.take(i + 1)));
        }
    }
    proof {
        assert(items.deep_view().take(n as int) =~= items.deep_view());
    }
}

fn collect_certificate(out: &mut Vec<Violation>, prefix: &Vec<PathSeg>, v: &Certificate)
    ensures
        final(out).deep_view() == old(out).deep_view() + viols_certificate(prefix.deep_view(), v.deep_view()),
{
    collect_date(out, prefix, "date", &v.date);
    proof {
        assert(out.deep_view() =~= old(out).deep_view() + viols_certificate(
            prefix.deep_view(), v.deep_view()));
    }
}

fn collect_certificate_list(out: &mut Vec<Violation>, prefix: &Vec<PathSeg>, items: &Vec<Certificate>)
    ensures
        final(out).deep_view() == old(out).deep_view() + viols_certificate_list(prefix.deep_view(), items.deep_view()),
{
    let n = items.len();
    proof {
        assert(viols_certificate_list(prefix.deep_view(), items.deep_view().take(0)) =~= seq![]);
        assert(out.deep_view() =~= out.deep_view() + seq![]);
    }
    for i in 0..n
        invariant
            n == items.len(),
            out.deep_view() == old(out).deep_view() + viols_certificate_list(
                prefix.deep_view(), items.deep_view().take(i as int)),
    {
        let mut sub = clone_path(prefix);
        sub.push(PathSeg::Index(i));
        collect_certificate(out, &sub, &items[i]);
        proof {
            lemma_take_succ(items.deep_view(), i as int);
            let dv = items.deep_view();
            assert(dv.take(i + 1).drop_last() =~= dv.take(i as int));
            assert(dv[i as int] == items@[i as int].deep_view());
            assert(out.deep_view() =~= old(out).deep_view() + viols_certificate_list(
                prefix.deep_view(), dv.take(i + 1)));
        }
    }
    proof {
        assert(items.deep_view().take(n as int) =~= items.deep_view());
    }
}

fn collect_publication(out: &mut Vec<Violation>, prefix: &Vec<PathSeg>, v: &Publication)
    ensures
        final(out).deep_view() == old(out).deep_view() + viols_publication(prefix.deep_view(), v.deep_view()),
{
    collect_date(out, prefix, "releaseDate", &v.release_date);
    proof {
        assert(out.deep_view() =~= old(out).deep_view() + viols_publication(
            prefix.deep_view(), v.deep_view()));
    }
}

fn collect_publication_list(out: &mut Vec<Violation>, prefix: &Vec<PathSeg>, items: &Vec<Publication>)
    ensures
        final(out).deep_view() == old(out).deep_view() + viols_publication_list(prefix.deep_view(), items.deep_view()),
{
    let n = items.len();
    proof {
        assert(viols_publication_list(prefix.deep_view(), items.deep_view().take(0)) =~= seq![]);
        assert(out.deep_view() =~= out.deep_view() + seq![]);
    }
    for i in 0..n
        invariant
            n == items.len(),
            out.deep_view() == old(out).deep_view() + viols_publication_list(
                prefix.deep_view(), items.deep_view().take(i as int)),
    {
        let mut sub = clone_path(prefix);
        sub.push(PathSeg::Index(i));
        collect_publication(out, &sub, &items[i]);
        proof {
            lemma_take_succ(items.deep_view(), i as int);
            let dv = items.deep_view();
            assert(dv.take(i + 1).drop_last() =~= dv.take(i as int));
            assert(dv[i as int] == items@[i as int].deep_view());
            assert(out.deep_view() =~= old(out).deep_view() + viols_publication_list(
                prefix.deep_view(), dv.take(i + 1)));
        }
    }
    proof {
        assert(items.deep_view().take(n as int) =~= items.deep_view());
    }
}

fn collect_project(out: &mut Vec<Violation>, prefix: &Vec<PathSeg>, v: &Project)
    ensures
        final(out).deep_view() == old(out).deep_view() + viols_project(prefix.deep_view(), v.deep_view()),
{
    collect_date(out, prefix, "startDate", &v.start_date);
    collect_date(out, prefix, "endDate", &v.end_date);
    proof {
        assert(out.deep_view() =~= old(out).deep_view() + viols_project(
            prefix.deep_view(), v.deep_view()));
    }
}

fn collect_project_list(out: &mut Vec<Violation>, prefix: &Vec<PathSeg>, items: &Vec<Project>)
    ensures
        final(out).deep_view() == old(out).deep_view() + viols_project_list(prefix.deep_view(), items.deep_view()),
{
    let n = items.len();
    proof {
        assert(viols_project_list(prefix.deep_view(), items.deep_view().take(0)) =~= seq![]);
        assert(out.deep_view() =~= out.deep_view() + seq![]);
    }
    for i in 0..n
        invariant
            n == items.len(),
            out.deep_view() == old(out).deep_view() + viols_project_list(
                prefix.deep_view(), items.deep_view().take(i as int)),
    {
        let mut sub = clone_path(prefix);
        sub.push(PathSeg::Index(i));
        collect_project(out, &sub, &items[i]);
        proof {
            lemma_take_succ(items.deep_view(), i as int);
            let dv = items.deep_view();
            assert(dv.take(i + 1).drop_last() =~= dv.take(i as int));
            assert(dv[i as int] == items@[i as int].deep_view());
            assert(out.deep_view() =~= old(out).deep_view() + viols_project_list(
                prefix.deep_view(), dv.take(i + 1)));
        }
    }
    proof {
        assert(items.deep_view().take(n as int) =~= items.deep_view());
    }
}

/// Check every date field in the tree against the date pattern. `Ok` when
/// none fails; otherwise every violation, in walk order, each with its
/// path and the rejected value.
pub fn validate(r: &Resume) -> (res: Result<(), ValidationErrors>)
    ensures
        match res {
            Ok(_) => viols_resume(r.deep_view()).len() == 0,
            Err(e) => {
                &&& e.errors.deep_view() == viols_resume(r.deep_view())
                &&& e.errors@.len() > 0
            },
        },
{
    let mut out: Vec<Violation> = Vec::new();
    proof {
        assert(out.deep_view() =~= Seq::<ViolationView>::empty());
    }
    let mut p_work: Vec<PathSeg> = Vec::new();
    p_work.push(PathSeg::Field("work".to_owned()));
    proof {
        assert(p_work.deep_view() =~= seq![PathSegV::Field("work"@)]);
    }
    collect_work_list(&mut out, &p_work, &r.work);
    let mut p_volunteer: Vec<PathSeg> = Vec::new();
    p_volunteer.push(PathSeg::Field("volunteer".to_owned()));
    proof {
        assert(p_volunteer.deep_view() =~= seq![PathSegV::Field("volunteer"@)]);
    }
    collect_volunteer_list(&mut out, &p_volunteer, &r.volunteer);
    let mut p_education: Vec<PathSeg> = Vec::new();
    p_education.push(PathSeg::Field("education".to_owned()));
    proof {
        assert(p_education.deep_view() =~= seq![PathSegV::Field("education"@)]);
    }
    collect_education_list(&mut out, &p_education, &r.education);
    let mut p_awards: Vec<PathSeg> = Vec::new();
    p_awards.push(PathSeg::Field("awards".to_owned()));
    proof {
        assert(p_awards.deep_view() =~= seq![PathSegV::Field("awards"@)]);
    }
    collect_award_list(&mut out, &p_awards, &r.awards);
    let mut p_certificates: Vec<PathSeg> = Vec::new();
    p_certificates.push(PathSeg::Field("certificates".to_owned()));
    proof {
        assert(p_certificates.deep_view() =~= seq![PathSegV::Field("certificates"@)]);
    }
    collect_certificate_list(&mut out, &p_certificates, &r.certificates);
    let mut p_publications: Vec<PathSeg> = Vec::new();
    p_publications.push(PathSeg::Field("publications".to_owned()));
    proof {
        assert(p_publications.deep_view() =~= seq![PathSegV::Field("publications"@)]);
    }
    collect_publication_list(&mut out, &p_publications, &r.publications);
    let mut p_projects: Vec<PathSeg> = Vec::new();
    p_projects.push(PathSeg::Field("projects".to_owned()));
    proof {
        assert(p_projects.deep_view() =~= seq![PathSegV::Field("projects"@)]);
    }
    collect_project_list(&mut out, &p_projects, &r.projects);
    let mut p_side_projects: Vec<PathSeg> = Vec::new();
    p_side_projects.push(PathSeg::Field("sideProjects".to_owned()));
    proof {
        assert(p_side_projects.deep_view() =~= seq![PathSegV::Field("sideProjects"@)]);
    }
    collect_project_list(&mut out, &p_side_projects, &r.side_projects);
    proof {
        assert(out.deep_view() =~= viols_resume(r.deep_view()));
    }
    if out.len() == 0 {
        proof {
            assert(out.deep_view() =~= Seq::<ViolationView>::empty());
        }
        Ok(())
    } else {
        Err(ValidationErrors { errors: out })
    }
}

} // verus!
