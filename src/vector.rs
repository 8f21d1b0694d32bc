use vstd::prelude::*;
use crate::json::{get_member, lookup, Json, Num};

verus! {

/// One vector of a point, in the encoding that its JSON shape chose.
#[derive(Debug)]
pub enum VectorData {
    Dense(Vec<Num>),
    Multi(Vec<Vec<Num>>),
    Sparse { indices: Vec<u32>, values: Vec<Num> },
}

/// The mathematical content of a [`VectorData`].
pub enum VectorShape {
    Dense(Seq<Num>),
    Multi(Seq<Seq<Num>>),
    Sparse(Seq<u32>, Seq<Num>),
}

impl View for VectorData {
    type V = VectorShape;

    open spec fn view(&self) -> VectorShape {
        match self {
            VectorData::Dense(v) => VectorShape::Dense(v@),
            VectorData::Multi(m) => VectorShape::Multi(m@.map_values(|row: Vec<Num>| row@)),
            VectorData::Sparse { indices, values } => VectorShape::Sparse(indices@, values@),
        }
    }
}

pub open spec fn is_number(j: Json) -> bool {
    j is Number
}

pub open spec fn num_of(j: Json) -> Num {
    match j {
        Json::Number(n) => n,
        _ => Num::Unsigned(0),
    }
}

pub open spec fn all_numbers(s: Seq<Json>) -> bool {
    forall|i: int| 0 <= i < s.len() ==> is_number(#[trigger] s[i])
}

pub open spec fn numbers_of(s: Seq<Json>) -> Seq<Num> {
    s.map_values(|e: Json| num_of(e))
}

/// An array whose elements are all numbers.
pub open spec fn is_number_row(j: Json) -> bool {
    match j {
        Json::Array(a) => all_numbers(a@),
        _ => false,
    }
}

pub open spec fn row_of(j: Json) -> Seq<Num> {
    match j {
        Json::Array(a) => numbers_of(a@),
        _ => Seq::empty(),
    }
}

pub open spec fn all_rows(s: Seq<Json>) -> bool {
    forall|i: int| 0 <= i < s.len() ==> is_number_row(#[trigger] s[i])
}

/// A sparse index: a non-negative integer, cast to 32 bits.
pub open spec fn is_index(j: Json) -> bool {
    j matches Json::Number(Num::Unsigned(_))
}

pub open spec fn index_of(j: Json) -> u32 {
    match j {
        Json::Number(Num::Unsigned(u)) => u as u32,
        _ => 0,
    }
}

pub open spec fn all_indices(s: Seq<Json>) -> bool {
    forall|i: int| 0 <= i < s.len() ==> is_index(#[trigger] s[i])
}

pub open spec fn indices_of(s: Seq<Json>) -> Seq<u32> {
    s.map_values(|e: Json| index_of(e))
}

/// The encoding of a vector entry, read from its JSON shape alone: a
/// non-empty array of numbers is dense, a non-empty array of number arrays is
/// a multi-vector, an object with `indices` and `values` arrays of equal
/// length is sparse. Every other shape has no encoding.
pub open spec fn vector_shape(j: Json) -> Option<VectorShape> {
    match j {
        Json::Array(a) => if a@.len() == 0 {
            None
        } else if all_numbers(a@) {
            Some(VectorShape::Dense(numbers_of(a@)))
        } else if all_rows(a@) {
            Some(VectorShape::Multi(a@.map_values(|e: Json| row_of(e))))
        } else {
            None
        },
        Json::Object(members) => sparse_shape(
            lookup(members@, "indices"@),
            lookup(members@, "values"@),
        ),
        _ => None,
    }
}

pub open spec fn sparse_shape(ix: Option<Json>, vs: Option<Json>) -> Option<VectorShape> {
    match (ix, vs) {
        (Some(Json::Array(ix)), Some(Json::Array(vs))) => if all_indices(ix@) && all_numbers(vs@)
            && ix@.len() == vs@.len() {
            Some(VectorShape::Sparse(indices_of(ix@), numbers_of(vs@)))
        } else {
            None
        },
        _ => None,
    }
}

pub open spec fn shape_of(r: Option<VectorData>) -> Option<VectorShape> {
    match r {
        Some(v) => Some(v@),
        None => None,
    }
}

pub(crate) fn all_numbers_exec(a: &Vec<Json>) -> (r: bool)
    ensures
        r == all_numbers(a@),
{
    let mut i: usize = 0;
    while i < a.len()
        invariant
            i <= a@.len(),
            forall|k: int| 0 <= k < i ==> is_number(#[trigger] a@[k]),
        decreases a@.len() - i,
    {
        if !matches!(a[i], Json::Number(_)) {
            return false;
        }
        i = i + 1;
    }
    true
}

pub(crate) fn numbers_exec(a: &Vec<Json>) -> (r: Vec<Num>)
    requires
        all_numbers(a@),
    ensures
        r@ == numbers_of(a@),
{
    let mut r: Vec<Num> = Vec::new();
    let mut i: usize = 0;
    while i < a.len()
        invariant
            i <= a@.len(),
            all_numbers(a@),
            r@ == numbers_of(a@.subrange(0, i as int)),
        decreases a@.len() - i,
    {
        assert(is_number(a@[i as int]));
        match &a[i] {
            Json::Number(n) => r.push(*n),
            _ => {},
        }
        assert(a@.subrange(0, i + 1) =~= a@.subrange(0, i as int).push(a@[i as int]));
        i = i + 1;
    }
    assert(a@.subrange(0, a@.len() as int) =~= a@);
    r
}

fn all_rows_exec(a: &Vec<Json>) -> (r: bool)
    ensures
        r == all_rows(a@),
{
    let mut i: usize = 0;
    while i < a.len()
        invariant
            i <= a@.len(),
            forall|k: int| 0 <= k < i ==> is_number_row(#[trigger] a@[k]),
        decreases a@.len() - i,
    {
        let ok = match &a[i] {
            Json::Array(row) => all_numbers_exec(row),
            _ => false,
        };
        if !ok {
            return false;
        }
        i = i + 1;
    }
    true
}

fn rows_exec(a: &Vec<Json>) -> (r: Vec<Vec<Num>>)
    requires
        all_rows(a@),
    ensures
        r@.map_values(|row: Vec<Num>| row@) == a@.map_values(|e: Json| row_of(e)),
{
    let mut r: Vec<Vec<Num>> = Vec::new();
    let mut i: usize = 0;
    while i < a.len()
        invariant
            i <= a@.len(),
            all_rows(a@),
            r@.len() == i,
            forall|k: int| 0 <= k < i ==> (#[trigger] r@[k])@ == row_of(a@[k]),
        decreases a@.len() - i,
    {
        assert(is_number_row(a@[i as int]));
        match &a[i] {
            Json::Array(row) => {
                let nums = numbers_exec(row);
                r.push(nums);
            },
            _ => {},
        }
        i = i + 1;
    }
    assert(r@.map_values(|row: Vec<Num>| row@) =~= a@.map_values(|e: Json| row_of(e)));
    r
}

fn all_indices_exec(a: &Vec<Json>) -> (r: bool)
    ensures
        r == all_indices(a@),
{
    let mut i: usize = 0;
    while i < a.len()
        invariant
            i <= a@.len(),
            forall|k: int| 0 <= k < i ==> is_index(#[trigger] a@[k]),
        decreases a@.len() - i,
    {
        if !matches!(a[i], Json::Number(Num::Unsigned(_))) {
            return false;
        }
        i = i + 1;
    }
    true
}

fn indices_exec(a: &Vec<Json>) -> (r: Vec<u32>)
    requires
        all_indices(a@),
    ensures
        r@ == indices_of(a@),
{
    let mut r: Vec<u32> = Vec::new();
    let mut i: usize = 0;
    while i < a.len()
        invariant
            i <= a@.len(),
            all_indices(a@),
            r@ == indices_of(a@.subrange(0, i as int)),
        decreases a@.len() - i,
    {
        assert(is_index(a@[i as int]));
        match &a[i] {
            Json::Number(Num::Unsigned(u)) => r.push(*u as u32),
            _ => {},
        }
        assert(a@.subrange(0, i + 1) =~= a@.subrange(0, i as int).push(a@[i as int]));
        i = i + 1;
    }
    assert(a@.subrange(0, a@.len() as int) =~= a@);
    r
}

/// Reads the encoding of one vector entry from its JSON shape.
pub fn classify_vector(j: &Json) -> (r: Option<VectorData>)
    ensures
        shape_of(r) == vector_shape(*j),
{
    match j {
        Json::Array(a) => {
            if a.len() == 0 {
                None
            } else if all_numbers_exec(a) {
                Some(VectorData::Dense(numbers_exec(a)))
            } else if all_rows_exec(a) {
                Some(VectorData::Multi(rows_exec(a)))
            } else {
                None
            }
        },
        Json::Object(members) => {
            let indices_key = String::from_str("indices");
            let values_key = String::from_str("values");
            proof {
                reveal_strlit("indices");
                reveal_strlit("values");
            }
            match (get_member(members, &indices_key), get_member(members, &values_key)) {
                (Some(Json::Array(ix)), Some(Json::Array(vs))) => {
                    if all_indices_exec(ix) && all_numbers_exec(vs) && ix.len() == vs.len() {
                        Some(VectorData::Sparse { indices: indices_exec(ix), values: numbers_exec(vs) })
                    } else {
                        None
                    }
                },
                _ => None,
            }
        },
        _ => None,
    }
}

} // verus!
