use qdrant_sink::json::{Json, Num};
use qdrant_sink::point::{value_to_point, ConversionError, PointId, PointRequest};
use qdrant_sink::vector::{classify_vector, VectorData};

fn s(text: &str) -> Json {
    Json::Str(text.to_string())
}

fn float(x: f64) -> Json {
    Json::Number(Num::Real(x.to_bits()))
}

fn uint(n: u64) -> Json {
    Json::Number(Num::Unsigned(n))
}

fn arr(items: Vec<Json>) -> Json {
    Json::Array(items)
}

fn obj(members: Vec<(&str, Json)>) -> Json {
    Json::Object(members.into_iter().map(|(k, v)| (k.to_string(), v)).collect())
}

fn doc(id: Json, vectors: Json) -> Json {
    obj(vec![("collection_name", s("docs")), ("id", id), ("vectors", vectors)])
}

fn convert_ok(j: Json) -> (String, PointRequest) {
    match value_to_point(j) {
        Ok(r) => r,
        Err(e) => panic!("unexpected error {:?}", e),
    }
}

fn convert_err(j: Json) -> ConversionError {
    match value_to_point(j) {
        Ok(r) => panic!("unexpected success {:?}", r),
        Err(e) => e,
    }
}

#[test]
fn end_to_end_example_converts() {
    let j = obj(vec![
        ("collection_name", s("docs")),
        ("id", uint(7)),
        ("vectors", arr(vec![float(0.1), float(0.2), float(0.3)])),
        ("payload", obj(vec![("title", s("x"))])),
    ]);
    let (collection, point) = convert_ok(j);
    assert_eq!(collection, "docs");
    assert!(matches!(point.id, PointId::Num(7)));
    assert_eq!(point.vectors.len(), 1);
    assert_eq!(point.vectors[0].0, "");
    match &point.vectors[0].1 {
        VectorData::Dense(v) => assert_eq!(
            v,
            &vec![
                Num::Real(0.1f64.to_bits()),
                Num::Real(0.2f64.to_bits()),
                Num::Real(0.3f64.to_bits())
            ]
        ),
        other => panic!("not dense: {:?}", other),
    }
    assert_eq!(point.payload.len(), 1);
    assert_eq!(point.payload[0].0, "title");
    assert!(matches!(&point.payload[0].1, Json::Str(t) if t == "x"));
}

#[test]
fn string_identifier_is_kept() {
    let (_, point) = convert_ok(doc(s("abc"), arr(vec![float(1.0)])));
    assert!(matches!(point.id, PointId::Uuid(ref t) if t == "abc"));
}

#[test]
fn integer_identifier_is_kept() {
    let (_, point) = convert_ok(doc(uint(42), arr(vec![float(1.0)])));
    assert!(matches!(point.id, PointId::Num(42)));
}

#[test]
fn largest_integer_identifier_is_kept() {
    let (_, point) = convert_ok(doc(uint(u64::MAX), arr(vec![float(1.0)])));
    assert!(matches!(point.id, PointId::Num(u64::MAX)));
}

#[test]
fn float_bool_null_identifiers_are_refused() {
    for id in [float(4.2), Json::Bool(true), Json::Null] {
        let e = convert_err(doc(id, arr(vec![float(1.0)])));
        assert!(matches!(e, ConversionError::InvalidIdentifierType));
    }
}

#[test]
fn negative_empty_and_structured_identifiers_are_refused() {
    for id in [
        Json::Number(Num::Negative(-3)),
        s(""),
        arr(vec![uint(1)]),
        obj(vec![]),
    ] {
        let e = convert_err(doc(id, arr(vec![float(1.0)])));
        assert!(matches!(e, ConversionError::InvalidIdentifierType));
    }
}

#[test]
fn missing_collection_name_is_refused() {
    let j = obj(vec![("id", uint(1)), ("vectors", arr(vec![float(1.0)]))]);
    assert!(matches!(convert_err(j), ConversionError::InvalidCollectionName));
}

#[test]
fn non_string_collection_name_is_refused() {
    let j = obj(vec![
        ("collection_name", uint(5)),
        ("id", uint(1)),
        ("vectors", arr(vec![float(1.0)])),
    ]);
    assert!(matches!(convert_err(j), ConversionError::InvalidCollectionName));
}

#[test]
fn non_object_document_is_refused() {
    assert!(matches!(convert_err(arr(vec![])), ConversionError::InvalidCollectionName));
}

#[test]
fn empty_collection_name_is_accepted() {
    let j = obj(vec![
        ("collection_name", s("")),
        ("id", uint(1)),
        ("vectors", arr(vec![float(1.0)])),
    ]);
    let (collection, _) = convert_ok(j);
    assert_eq!(collection, "");
}

#[test]
fn mixed_array_entry_is_refused_by_name() {
    let j = doc(uint(1), obj(vec![("a", arr(vec![float(1.0), s("x")]))]));
    match convert_err(j) {
        ConversionError::InvalidVectorEncoding { key } => assert_eq!(key, "a"),
        e => panic!("wrong error {:?}", e),
    }
}

#[test]
fn indices_without_values_is_refused() {
    let j = doc(uint(1), obj(vec![("sp", obj(vec![("indices", arr(vec![uint(1)]))]))]));
    match convert_err(j) {
        ConversionError::InvalidVectorEncoding { key } => assert_eq!(key, "sp"),
        e => panic!("wrong error {:?}", e),
    }
}

#[test]
fn empty_vectors_object_gives_no_vectors() {
    let (collection, point) = convert_ok(doc(s("not-checked-twice"), obj(vec![])));
    assert_eq!(collection, "docs");
    assert!(matches!(point.id, PointId::Uuid(ref t) if t == "not-checked-twice"));
    assert!(point.vectors.is_empty());
    assert!(point.payload.is_empty());
}

#[test]
fn named_entries_keep_order_and_encoding() {
    let j = doc(
        uint(3),
        obj(vec![
            ("dense", arr(vec![uint(1), float(2.5)])),
            ("multi", arr(vec![arr(vec![float(1.0)]), arr(vec![])])),
            (
                "sparse",
                obj(vec![
                    ("indices", arr(vec![uint(4), uint(9)])),
                    ("values", arr(vec![float(0.5), float(0.25)])),
                ]),
            ),
        ]),
    );
    let (_, point) = convert_ok(j);
    assert_eq!(point.vectors.len(), 3);
    assert_eq!(point.vectors[0].0, "dense");
    assert!(matches!(&point.vectors[0].1, VectorData::Dense(v)
        if v == &vec![Num::Unsigned(1), Num::Real(2.5f64.to_bits())]));
    assert_eq!(point.vectors[1].0, "multi");
    assert!(matches!(&point.vectors[1].1, VectorData::Multi(m)
        if m == &vec![vec![Num::Real(1.0f64.to_bits())], vec![]]));
    assert_eq!(point.vectors[2].0, "sparse");
    assert!(matches!(&point.vectors[2].1, VectorData::Sparse { indices, values }
        if indices == &vec![4u32, 9] && values == &vec![Num::Real(0.5f64.to_bits()), Num::Real(0.25f64.to_bits())]));
}

#[test]
fn first_bad_entry_names_the_error() {
    let j = doc(
        uint(1),
        obj(vec![
            ("good", arr(vec![float(1.0)])),
            ("bad", arr(vec![])),
            ("worse", Json::Bool(false)),
        ]),
    );
    match convert_err(j) {
        ConversionError::InvalidVectorEncoding { key } => assert_eq!(key, "bad"),
        e => panic!("wrong error {:?}", e),
    }
}

#[test]
fn vectors_of_wrong_type_are_refused() {
    for v in [s("x"), uint(1), Json::Null] {
        assert!(matches!(convert_err(doc(uint(1), v)), ConversionError::InvalidVectorsType));
    }
    let j = obj(vec![("collection_name", s("docs")), ("id", uint(1))]);
    assert!(matches!(convert_err(j), ConversionError::InvalidVectorsType));
}

#[test]
fn flat_array_is_always_dense() {
    let (_, point) = convert_ok(doc(uint(1), arr(vec![uint(2), float(3.5)])));
    assert_eq!(point.vectors.len(), 1);
    assert_eq!(point.vectors[0].0, "");
    assert!(matches!(&point.vectors[0].1, VectorData::Dense(v)
        if v == &vec![Num::Unsigned(2), Num::Real(3.5f64.to_bits())]));
}

#[test]
fn flat_array_of_arrays_or_empty_is_refused() {
    for v in [arr(vec![arr(vec![float(1.0)])]), arr(vec![])] {
        match convert_err(doc(uint(1), v)) {
            ConversionError::InvalidVectorEncoding { key } => assert_eq!(key, ""),
            e => panic!("wrong error {:?}", e),
        }
    }
}

#[test]
fn payload_null_or_absent_is_empty_and_scalar_is_refused() {
    let mut j = doc(uint(1), arr(vec![float(1.0)]));
    if let Json::Object(m) = &mut j {
        m.push(("payload".to_string(), Json::Null));
    }
    assert!(convert_ok(j).1.payload.is_empty());
    let mut k = doc(uint(1), arr(vec![float(1.0)]));
    if let Json::Object(m) = &mut k {
        m.push(("payload".to_string(), s("text")));
    }
    assert!(matches!(convert_err(k), ConversionError::InvalidPayloadType));
}

#[test]
fn repeated_member_last_wins() {
    let j = obj(vec![
        ("collection_name", uint(1)),
        ("collection_name", s("later")),
        ("id", uint(1)),
        ("vectors", arr(vec![float(1.0)])),
    ]);
    assert_eq!(convert_ok(j).0, "later");
}

#[test]
fn classify_shapes() {
    assert!(matches!(classify_vector(&arr(vec![float(1.0)])), Some(VectorData::Dense(_))));
    assert!(matches!(classify_vector(&arr(vec![arr(vec![uint(1)])])), Some(VectorData::Multi(_))));
    assert!(classify_vector(&arr(vec![])).is_none());
    assert!(classify_vector(&uint(1)).is_none());
    assert!(classify_vector(&arr(vec![arr(vec![s("x")])])).is_none());
    assert!(classify_vector(&arr(vec![arr(vec![uint(1)]), uint(2)])).is_none());
}

#[test]
fn sparse_indices_are_cast_to_32_bits() {
    let j = obj(vec![
        ("indices", arr(vec![uint((1u64 << 32) + 5)])),
        ("values", arr(vec![float(1.5)])),
    ]);
    match classify_vector(&j) {
        Some(VectorData::Sparse { indices, .. }) => assert_eq!(indices, vec![5u32]),
        other => panic!("not sparse: {:?}", other),
    }
}

#[test]
fn sparse_of_unequal_lengths_or_bad_members_is_refused() {
    let unequal = obj(vec![
        ("indices", arr(vec![uint(1), uint(2)])),
        ("values", arr(vec![float(1.5)])),
    ]);
    assert!(classify_vector(&unequal).is_none());
    let negative = obj(vec![
        ("indices", arr(vec![Json::Number(Num::Negative(-1))])),
        ("values", arr(vec![float(1.5)])),
    ]);
    assert!(classify_vector(&negative).is_none());
    let not_arrays = obj(vec![("indices", uint(1)), ("values", uint(2))]);
    assert!(classify_vector(&not_arrays).is_none());
}

#[test]
fn error_messages_name_the_cause() {
    assert_eq!(
        ConversionError::InvalidCollectionName.message(),
        "Invalid collection_name type"
    );
    assert_eq!(ConversionError::InvalidIdentifierType.message(), "Invalid point ID type");
    assert_eq!(ConversionError::InvalidVectorsType.message(), "Invalid vectors type");
    assert_eq!(ConversionError::InvalidPayloadType.message(), "Invalid payload type");
    let e = ConversionError::InvalidVectorEncoding { key: "image".to_string() };
    assert_eq!(e.message(), "Invalid vector type for key image");
}
