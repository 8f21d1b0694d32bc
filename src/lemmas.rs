use vstd::prelude::*;
use crate::json::{field, lookup, Json};
use crate::point::{collection_of, conversion, first_invalid, id_of, vectors_of, ErrorView};
use crate::vector::{
    all_numbers, all_rows, is_number, is_number_row, numbers_of, sparse_shape, vector_shape,
    VectorShape,
};

verus! {

/// Every vector entry has at most one encoding, and which one is fixed by its
/// JSON shape: a non-empty array of numbers is dense, a non-empty array of
/// number arrays is a multi-vector, an object is sparse or nothing.
pub proof fn lemma_shape_follows_json(j: Json)
    ensures
        (vector_shape(j) matches Some(VectorShape::Dense(_))) <==> (j matches Json::Array(a) && a@.len()
            > 0 && all_numbers(a@)),
        (vector_shape(j) matches Some(VectorShape::Multi(_))) <==> (j matches Json::Array(a) && a@.len()
            > 0 && all_rows(a@)),
        (vector_shape(j) matches Some(VectorShape::Sparse(_, _))) <==> (j matches Json::Object(m)
            && sparse_shape(lookup(m@, "indices"@), lookup(m@, "values"@)) is Some),
{
    if let Json::Array(a) = j {
        if a@.len() > 0 && all_numbers(a@) && all_rows(a@) {
            assert(is_number(a@[0]));
            assert(is_number_row(a@[0]));
        }
    }
}

/// A document whose `vectors` is an object converts, when it converts, to
/// exactly one vector per member, in member order, under the member's name and
/// in the encoding that the member's shape gives: no member is dropped.
pub proof fn lemma_named_vectors_kept(j: Json)
    requires
        field(j, "vectors"@) matches Some(Json::Object(_)),
        conversion(j) is Ok,
    ensures
        ({
            let members = field(j, "vectors"@)->Some_0->Object_0@;
            let vectors = conversion(j)->Ok_0.1.vectors;
            &&& vectors.len() == members.len()
            &&& forall|i: int|
                0 <= i < members.len() ==> (#[trigger] vectors[i]).0 == members[i].0@ && Some(
                    vectors[i].1,
                ) == vector_shape(members[i].1)
        }),
{
    let members = field(j, "vectors"@)->Some_0->Object_0@;
    assert(first_invalid(members) is None);
    assert forall|i: int| 0 <= i < members.len() implies (#[trigger] vector_shape(
        members[i].1,
    )) is Some by {
        if vector_shape(members[i].1) is None {
            assert(exists|k: int|
                0 <= k < members.len() && (#[trigger] vector_shape(members[k].1)) is None);
        }
    }
}

/// A document whose `vectors` is a flat array converts, when it converts, to
/// one dense vector under the empty name, holding the array's numbers.
pub proof fn lemma_flat_array_is_default_dense(j: Json)
    requires
        field(j, "vectors"@) matches Some(Json::Array(_)),
        conversion(j) is Ok,
    ensures
        conversion(j)->Ok_0.1.vectors == seq![
            (
                Seq::<char>::empty(),
                VectorShape::Dense(numbers_of(field(j, "vectors"@)->Some_0->Array_0@)),
            ),
        ],
{
}

/// Without a string `collection_name` a document is refused for its
/// collection name; with one, even the empty string, never for that reason.
pub proof fn lemma_collection_name_is_a_string(j: Json)
    ensures
        !(field(j, "collection_name"@) matches Some(Json::Str(_))) ==> conversion(j)
            == Err::<(Seq<char>, crate::point::PointView), ErrorView>(
            ErrorView::InvalidCollectionName,
        ),
        (field(j, "collection_name"@) matches Some(Json::Str(_))) ==> !(conversion(j) matches Err(
            ErrorView::InvalidCollectionName,
        )),
        conversion(j) is Ok ==> conversion(j)->Ok_0.0 == field(
            j,
            "collection_name"@,
        )->Some_0->Str_0@,
{
}

/// In a document with a string collection name and a valid identifier, the
/// first member of a `vectors` object that has no encoding is the one the
/// document is refused for, by its name.
pub proof fn lemma_first_bad_entry_named(j: Json, i: int)
    requires
        collection_of(j) is Some,
        id_of(j) is Some,
        field(j, "vectors"@) matches Some(Json::Object(m)) && 0 <= i < m@.len() && vector_shape(
            m@[i].1,
        ) is None && forall|k: int| 0 <= k < i ==> (#[trigger] vector_shape(m@[k].1)) is Some,
    ensures
        conversion(j) == Err::<(Seq<char>, crate::point::PointView), ErrorView>(
            ErrorView::InvalidVectorEncoding(field(j, "vectors"@)->Some_0->Object_0@[i].0@),
        ),
{
    let members = field(j, "vectors"@)->Some_0->Object_0@;
    crate::point::lemma_first_invalid_at(members, i);
}

/// An array that holds a number and also a value that is not a number has
/// no encoding.
pub proof fn lemma_mixed_array_has_no_shape(j: Json, n: int, x: int)
    requires
        j matches Json::Array(a) && 0 <= n < a@.len() && 0 <= x < a@.len() && is_number(a@[n])
            && !is_number(a@[x]),
    ensures
        vector_shape(j) is None,
{
    let a = j->Array_0@;
    assert(!is_number_row(a[n]));
}

/// An object without a `values` member has no encoding.
pub proof fn lemma_sparse_needs_values(j: Json)
    requires
        j matches Json::Object(m) && lookup(m@, "values"@) is None,
    ensures
        vector_shape(j) is None,
{
}

/// An empty `vectors` object is no error: it gives no vectors.
pub proof fn lemma_empty_named_vectors(j: Json)
    requires
        field(j, "vectors"@) matches Some(Json::Object(m)) && m@.len() == 0,
    ensures
        vectors_of(j) == Ok::<Seq<(Seq<char>, VectorShape)>, ErrorView>(Seq::empty()),
{
    let members = field(j, "vectors"@)->Some_0->Object_0@;
    assert(members.map_values(|e: (String, Json)| (e.0@, vector_shape(e.1)->Some_0)) =~= Seq::<
        (Seq<char>, VectorShape),
    >::empty());
}

} // verus!
