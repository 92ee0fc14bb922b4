//! Field paths and the two error reports: a decode failure, and the
//! aggregate of every date-pattern violation that a validation pass found.

use vstd::prelude::*;
use crate::util::{lemma_vec_deep, lemma_seq_deep_push, lemma_take_succ};

verus! {

broadcast use lemma_vec_deep, lemma_seq_deep_push;

/// One step of a field path: a named member, or an index into a collection.
#[derive(Debug, Clone, PartialEq)]
pub enum PathSeg {
    Field(String),
    Index(usize),
}

/// The mathematical value of a [`PathSeg`].
pub enum PathSegV {
    Field(Seq<char>),
    Index(int),
}

impl DeepView for PathSeg {
    type V = PathSegV;

    open spec fn deep_view(&self) -> PathSegV {
        match self {
            PathSeg::Field(s) => PathSegV::Field(s@),
            PathSeg::Index(i) => PathSegV::Index(*i as int),
        }
    }
}

/// Why a wire value could not be mapped onto the schema.
#[derive(Debug, Clone, PartialEq)]
pub enum DecodeReason {
    /// A string was expected at the path.
    ExpectedString,
    /// An array was expected at the path.
    ExpectedArray,
    /// An object was expected at the path.
    ExpectedObject,
    /// A required string member is missing at the path.
    MissingField,
}

/// A wire value could not be mapped onto the schema: the offending field
/// path, from the decoded root, and the reason.
#[derive(Debug, Clone, PartialEq)]
pub struct DecodeError {
    pub path: Vec<PathSeg>,
    pub reason: DecodeReason,
}

impl DecodeError {
    /// An error at one named member of the current object.
    pub fn at_field(name: &str, reason: DecodeReason) -> (r: DecodeError)
        ensures
            r.path.deep_view() == seq![PathSegV::Field(name@)],
            r.reason == reason,
    {
        let mut path: Vec<PathSeg> = Vec::new();
        path.push(PathSeg::Field(name.to_owned()));
        proof {
            assert(path.deep_view() =~= seq![PathSegV::Field(name@)]);
        }
        DecodeError { path, reason }
    }

    /// An error about the current value itself, with an empty path for the
    /// caller to extend.
    pub fn here(reason: DecodeReason) -> (r: DecodeError)
        ensures
            r.path.deep_view() == Seq::<PathSegV>::empty(),
            r.reason == reason,
    {
        let path: Vec<PathSeg> = Vec::new();
        proof {
            assert(path.deep_view() =~= Seq::<PathSegV>::empty());
        }
        DecodeError { path, reason }
    }

    /// Prefix the path with a step of the surrounding value.
    pub fn push_under(&mut self, seg: PathSeg)
        ensures
            final(self).path.deep_view() == seq![seg.deep_view()] + old(self).path.deep_view(),
            final(self).reason == old(self).reason,
    {
        self.path.insert(0, seg);
        proof {
            assert(self.path.deep_view() =~= seq![seg.deep_view()]
                + old(self).path.deep_view());
        }
    }
}

/// One date field that fails the date pattern: where it stands, and the
/// rejected value.
#[derive(Debug, Clone, PartialEq)]
pub struct Violation {
    pub path: Vec<PathSeg>,
    pub value: String,
}

/// The mathematical value of a [`Violation`].
#[verifier::ext_equal]
pub struct ViolationView {
    pub path: Seq<PathSegV>,
    pub value: Seq<char>,
}

impl DeepView for Violation {
    type V = ViolationView;

    open spec fn deep_view(&self) -> ViolationView {
        ViolationView { path: self.path.deep_view(), value: self.value@ }
    }
}

/// Every date-pattern violation found in one pass over a tree, in walk
/// order; never empty when returned as an error.
#[derive(Debug, Clone, PartialEq)]
pub struct ValidationErrors {
    pub errors: Vec<Violation>,
}

/// Copy a path, step by step.
pub fn clone_path(p: &Vec<PathSeg>) -> (r: Vec<PathSeg>)
    ensures
        r.deep_view() == p.deep_view(),
{
    let mut r: Vec<PathSeg> = Vec::new();
    let n = p.len();
    for i in 0..n
        invariant
            n == p.len(),
            r.deep_view() == p.deep_view().take(i as int),
    {
        let cur = &p[i];
        let seg = match cur {
            PathSeg::Field(s) => PathSeg::Field(s.clone()),
            PathSeg::Index(k) => PathSeg::Index(*k),
        };
        proof {
            assert(seg.deep_view() == p@[i as int].deep_view());
            assert(p.deep_view()[i as int] == p@[i as int].deep_view());
        }
        r.push(seg);
        proof {
            lemma_take_succ(p.deep_view(), i as int);
            assert(r.deep_view() == p.deep_view().take(i + 1));
        }
    }
    proof {
        assert(p.deep_view().take(n as int) =~= p.deep_view());
    }
    r
}

} // verus!
