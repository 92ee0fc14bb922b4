//! The wire document model: a structured value with null, boolean, number,
//! string, array and object nodes, mirrored at the specification level by
//! [`JsonV`]. Object members keep their order; a lookup finds the first
//! member with the asked-for name.

use vstd::prelude::*;

verus! {

/// A wire document value. The codec reads and produces values of this type;
/// an adapter outside the library turns them into text and back.
#[derive(Debug, PartialEq)]
pub enum Json {
    Null,
    Bool(bool),
    Num(i64),
    Str(String),
    Arr(Vec<Json>),
    Obj(Vec<(String, Json)>),
}

/// The mathematical value of a [`Json`] node.
#[verifier::ext_equal]
pub enum JsonV {
    Null,
    Bool(bool),
    Num(i64),
    Str(Seq<char>),
    Arr(Seq<JsonV>),
    Obj(Seq<(Seq<char>, JsonV)>),
}

pub open spec fn json_view(j: Json) -> JsonV
    decreases j,
{
    match j {
        Json::Null => JsonV::Null,
        Json::Bool(b) => JsonV::Bool(b),
        Json::Num(n) => JsonV::Num(n),
        Json::Str(s) => JsonV::Str(s@),
        Json::Arr(a) => JsonV::Arr(elems_view(a@)),
        Json::Obj(f) => JsonV::Obj(fields_view(f@)),
    }
}

pub open spec fn elems_view(s: Seq<Json>) -> Seq<JsonV>
    decreases s,
{
    if s.len() == 0 {
        seq![]
    } else {
        elems_view(s.drop_last()).push(json_view(s.last()))
    }
}

pub open spec fn fields_view(fs: Seq<(String, Json)>) -> Seq<(Seq<char>, JsonV)>
    decreases fs,
{
    if fs.len() == 0 {
        seq![]
    } else {
        fields_view(fs.drop_last()).push((fs.last().0@, json_view(fs.last().1)))
    }
}

impl DeepView for Json {
    type V = JsonV;

    open spec fn deep_view(&self) -> JsonV {
        json_view(*self)
    }
}

/// `elems_view` is the element-wise view of the sequence.
pub proof fn lemma_elems_view(s: Seq<Json>)
    ensures
        elems_view(s).len() == s.len(),
        forall|i: int| 0 <= i < s.len() ==> elems_view(s)[i] == json_view(#[trigger] s[i]),
    decreases s.len(),
{
    if s.len() > 0 {
        lemma_elems_view(s.drop_last());
        assert forall|i: int| 0 <= i < s.len() implies elems_view(s)[i] == json_view(
            #[trigger] s[i],
        ) by {
            if i < s.len() - 1 {
                assert(s.drop_last()[i] == s[i]);
                assert(elems_view(s)[i] == elems_view(s.drop_last())[i]);
            } else {
                assert(s.last() == s[i]);
            }
        }
    }
}

/// `fields_view` is the member-wise view of the member list.
pub proof fn lemma_fields_view(fs: Seq<(String, Json)>)
    ensures
        fields_view(fs).len() == fs.len(),
        forall|i: int| 0 <= i < fs.len() ==> fields_view(fs)[i] == ((#[trigger] fs[i]).0@,
            json_view(fs[i].1)),
    decreases fs.len(),
{
    if fs.len() > 0 {
        lemma_fields_view(fs.drop_last());
        assert forall|i: int| 0 <= i < fs.len() implies fields_view(fs)[i] == ((#[trigger] fs[i]).0@,
            json_view(fs[i].1)) by {
            if i < fs.len() - 1 {
                assert(fs.drop_last()[i] == fs[i]);
                assert(fields_view(fs)[i] == fields_view(fs.drop_last())[i]);
            } else {
                assert(fs.last() == fs[i]);
            }
        }
    }
}

/// The value of the first object member named `k`, if any.
pub open spec fn jv_obj_get(fields: Seq<(Seq<char>, JsonV)>, k: Seq<char>) -> Option<JsonV>
    decreases fields.len(),
{
    if fields.len() == 0 {
        None
    } else if fields[0].0 == k {
        Some(fields[0].1)
    } else {
        jv_obj_get(fields.drop_first(), k)
    }
}

/// Looking a name up in a concatenation searches the left part first.
pub proof fn lemma_obj_get_append(
    a: Seq<(Seq<char>, JsonV)>,
    b: Seq<(Seq<char>, JsonV)>,
    k: Seq<char>,
)
    ensures
        jv_obj_get(a + b, k) == if jv_obj_get(a, k) is Some {
            jv_obj_get(a, k)
        } else {
            jv_obj_get(b, k)
        },
    decreases a.len(),
{
    if a.len() == 0 {
        assert(a + b =~= b);
    } else {
        assert((a + b).drop_first() =~= a.drop_first() + b);
        assert((a + b)[0] == a[0]);
        lemma_obj_get_append(a.drop_first(), b, k);
    }
}

/// If the first `i` members all miss `k`, the lookup result is decided by the
/// rest of the member list.
pub proof fn lemma_obj_get_prefix_miss(fields: Seq<(Seq<char>, JsonV)>, k: Seq<char>, i: int)
    requires
        0 <= i <= fields.len(),
        forall|m: int| 0 <= m < i ==> (#[trigger] fields[m]).0 != k,
    ensures
        jv_obj_get(fields, k) == jv_obj_get(fields.skip(i), k),
    decreases i,
{
    if i > 0 {
        assert(fields[0].0 != k);
        assert forall|m: int| 0 <= m < i - 1 implies (#[trigger] fields.drop_first()[m]).0 != k by {
            assert(fields.drop_first()[m] == fields[m + 1]);
        }
        lemma_obj_get_prefix_miss(fields.drop_first(), k, i - 1);
        assert(fields.drop_first().skip(i - 1) =~= fields.skip(i));
    } else {
        assert(fields.skip(0) =~= fields);
    }
}

/// Fetch the first object member named `key`, by the same rule as
/// [`jv_obj_get`].
pub fn get_field<'a>(fields: &'a Vec<(String, Json)>, key: &str) -> (r: Option<&'a Json>)
    ensures
        match r {
            Some(j) => jv_obj_get(fields_view(fields@), key@) == Some(j.deep_view()),
            None => jv_obj_get(fields_view(fields@), key@) is None,
        },
{
    proof {
        lemma_fields_view(fields@);
    }
    let key_owned: String = key.to_owned();
    let n = fields.len();
    for i in 0..n
        invariant
            n == fields.len(),
            key_owned@ == key@,
            forall|m: int| 0 <= m < i ==> (#[trigger] fields_view(fields@)[m]).0 != key@,
    {
        proof {
            lemma_fields_view(fields@);
        }
        let p = &fields[i];
        if p.0 == key_owned {
            proof {
                lemma_obj_get_prefix_miss(fields_view(fields@), key@, i as int);
                assert(fields_view(fields@).skip(i as int)[0] == fields_view(fields@)[
                    i as int]);
            }
            return Some(&p.1);
        }
    }
    proof {
        lemma_obj_get_prefix_miss(fields_view(fields@), key@, n as int);
        assert(fields_view(fields@).skip(n as int).len() == 0);
    }
    None
}

} // verus!
