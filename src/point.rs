use vstd::prelude::*;
use crate::json::{field, find_member, get_member, Json, Num};
use crate::vector::{
    all_numbers_exec, classify_vector, numbers_exec, numbers_of, vector_shape, VectorData,
    VectorShape,
};

verus! {

/// A point identifier: an unsigned integer or a non-empty string.
#[derive(Debug)]
pub enum PointId {
    Num(u64),
    Uuid(String),
}

pub enum IdView {
    Num(u64),
    Uuid(Seq<char>),
}

impl View for PointId {
    type V = IdView;

    open spec fn view(&self) -> IdView {
        match self {
            PointId::Num(n) => IdView::Num(*n),
            PointId::Uuid(s) => IdView::Uuid(s@),
        }
    }
}

/// Why a document could not become a point.
#[derive(Debug)]
pub enum ConversionError {
    InvalidCollectionName,
    InvalidIdentifierType,
    InvalidVectorsType,
    InvalidVectorEncoding { key: String },
    InvalidPayloadType,
}

pub enum ErrorView {
    InvalidCollectionName,
    InvalidIdentifierType,
    InvalidVectorsType,
    InvalidVectorEncoding(Seq<char>),
    InvalidPayloadType,
}

impl View for ConversionError {
    type V = ErrorView;

    open spec fn view(&self) -> ErrorView {
        match self {
            ConversionError::InvalidCollectionName => ErrorView::InvalidCollectionName,
            ConversionError::InvalidIdentifierType => ErrorView::InvalidIdentifierType,
            ConversionError::InvalidVectorsType => ErrorView::InvalidVectorsType,
            ConversionError::InvalidVectorEncoding { key } => ErrorView::InvalidVectorEncoding(
                key@,
            ),
            ConversionError::InvalidPayloadType => ErrorView::InvalidPayloadType,
        }
    }
}

/// The text that reports a conversion error.
pub open spec fn error_message(e: ErrorView) -> Seq<char> {
    match e {
        ErrorView::InvalidCollectionName => "Invalid collection_name type"@,
        ErrorView::InvalidIdentifierType => "Invalid point ID type"@,
        ErrorView::InvalidVectorsType => "Invalid vectors type"@,
        ErrorView::InvalidVectorEncoding(key) => "Invalid vector type for key "@ + key,
        ErrorView::InvalidPayloadType => "Invalid payload type"@,
    }
}

impl ConversionError {
    /// Describes the error for an operator, naming the offending vector.
    pub fn message(&self) -> (r: String)
        ensures
            r@ == error_message(self@),
    {
        proof {
            reveal_strlit("Invalid collection_name type");
            reveal_strlit("Invalid point ID type");
            reveal_strlit("Invalid vectors type");
            reveal_strlit("Invalid vector type for key ");
            reveal_strlit("Invalid payload type");
        }
        match self {
            ConversionError::InvalidCollectionName => String::from_str(
                "Invalid collection_name type",
            ),
            ConversionError::InvalidIdentifierType => String::from_str("Invalid point ID type"),
            ConversionError::InvalidVectorsType => String::from_str("Invalid vectors type"),
            ConversionError::InvalidVectorEncoding { key } => String::from_str(
                "Invalid vector type for key ",
            ).concat(key.as_str()),
            ConversionError::InvalidPayloadType => String::from_str("Invalid payload type"),
        }
    }
}

/// A validated point, ready for an upsert. `vectors` lists the named vectors
/// in document order; the empty name stands for the default vector.
#[derive(Debug)]
pub struct PointRequest {
    pub id: PointId,
    pub vectors: Vec<(String, VectorData)>,
    pub payload: Vec<(String, Json)>,
}

pub struct PointView {
    pub id: IdView,
    pub vectors: Seq<(Seq<char>, VectorShape)>,
    pub payload: Seq<(String, Json)>,
}

impl View for PointRequest {
    type V = PointView;

    open spec fn view(&self) -> PointView {
        PointView {
            id: self.id@,
            vectors: self.vectors@.map_values(|e: (String, VectorData)| (e.0@, e.1@)),
            payload: self.payload@,
        }
    }
}

/// The collection a document names, if `collection_name` is a string.
pub open spec fn collection_of(j: Json) -> Option<Seq<char>> {
    match field(j, "collection_name"@) {
        Some(Json::Str(s)) => Some(s@),
        _ => None,
    }
}

/// The identifier a document gives: a non-empty string or an unsigned integer.
pub open spec fn id_of(j: Json) -> Option<IdView> {
    match field(j, "id"@) {
        Some(Json::Str(s)) => if s@.len() > 0 {
            Some(IdView::Uuid(s@))
        } else {
            None
        },
        Some(Json::Number(Num::Unsigned(n))) => Some(IdView::Num(n)),
        _ => None,
    }
}

/// Index of the first named entry that has no encoding, if there is one.
pub open spec fn first_invalid(members: Seq<(String, Json)>) -> Option<int> {
    if exists|i: int| 0 <= i < members.len() && (#[trigger] vector_shape(members[i].1)) is None {
        Some(
            choose|i: int|
                0 <= i < members.len() && vector_shape(members[i].1) is None && forall|k: int|
                    0 <= k < i ==> (#[trigger] vector_shape(members[k].1)) is Some,
        )
    } else {
        None
    }
}

/// The vectors a document gives. A named object yields one entry per member,
/// in order; a flat array yields one dense vector under the empty name.
pub open spec fn vectors_of(j: Json) -> Result<Seq<(Seq<char>, VectorShape)>, ErrorView> {
    match field(j, "vectors"@) {
        Some(Json::Object(members)) => match first_invalid(members@) {
            Some(i) => Err(ErrorView::InvalidVectorEncoding(members@[i].0@)),
            None => Ok(
                members@.map_values(
                    |e: (String, Json)| (e.0@, vector_shape(e.1)->Some_0),
                ),
            ),
        },
        Some(Json::Array(a)) => match vector_shape(Json::Array(a)) {
            Some(VectorShape::Dense(d)) => Ok(seq![(Seq::<char>::empty(), VectorShape::Dense(d))]),
            _ => Err(ErrorView::InvalidVectorEncoding(Seq::empty())),
        },
        _ => Err(ErrorView::InvalidVectorsType),
    }
}

/// The payload a document carries: the members of its `payload` object,
/// nothing when the field is absent or null.
pub open spec fn payload_of(j: Json) -> Option<Seq<(String, Json)>> {
    match field(j, "payload"@) {
        None => Some(Seq::empty()),
        Some(Json::Null) => Some(Seq::empty()),
        Some(Json::Object(members)) => Some(members@),
        _ => None,
    }
}

/// The outcome of converting a document, checked in the order collection
/// name, identifier, vectors, payload.
pub open spec fn conversion(j: Json) -> Result<(Seq<char>, PointView), ErrorView> {
    if collection_of(j) is None {
        Err(ErrorView::InvalidCollectionName)
    } else if id_of(j) is None {
        Err(ErrorView::InvalidIdentifierType)
    } else if vectors_of(j) is Err {
        Err(vectors_of(j)->Err_0)
    } else if payload_of(j) is None {
        Err(ErrorView::InvalidPayloadType)
    } else {
        Ok(
            (
                collection_of(j)->Some_0,
                PointView {
                    id: id_of(j)->Some_0,
                    vectors: vectors_of(j)->Ok_0,
                    payload: payload_of(j)->Some_0,
                },
            ),
        )
    }
}

pub open spec fn conversion_view(r: Result<(String, PointRequest), ConversionError>) -> Result<
    (Seq<char>, PointView),
    ErrorView,
> {
    match r {
        Ok((c, p)) => Ok((c@, p@)),
        Err(e) => Err(e@),
    }
}

pub(crate) proof fn lemma_first_invalid_at(members: Seq<(String, Json)>, i: int)
    requires
        0 <= i < members.len(),
        vector_shape(members[i].1) is None,
        forall|k: int| 0 <= k < i ==> (#[trigger] vector_shape(members[k].1)) is Some,
    ensures
        first_invalid(members) == Some(i),
{
    assert(vector_shape(members[i].1) is None);
    let j = choose|j: int|
        0 <= j < members.len() && vector_shape(members[j].1) is None && forall|k: int|
            0 <= k < j ==> (#[trigger] vector_shape(members[k].1)) is Some;
    if j < i {
        assert(vector_shape(members[j].1) is Some);
    } else if j > i {
        assert(vector_shape(members[i].1) is Some);
    }
}

fn named_vectors(members: &Vec<(String, Json)>) -> (r: Result<
    Vec<(String, VectorData)>,
    ConversionError,
>)
    ensures
        match r {
            Ok(v) => first_invalid(members@) is None && v@.map_values(
                |e: (String, VectorData)| (e.0@, e.1@),
            ) == members@.map_values(|e: (String, Json)| (e.0@, vector_shape(e.1)->Some_0)),
            Err(e) => first_invalid(members@) is Some && e@ == ErrorView::InvalidVectorEncoding(
                members@[first_invalid(members@)->Some_0].0@,
            ),
        },
{
    let mut out: Vec<(String, VectorData)> = Vec::new();
    let mut i: usize = 0;
    while i < members.len()
        invariant
            i <= members@.len(),
            out@.len() == i,
            forall|k: int|
                0 <= k < i ==> (#[trigger] vector_shape(members@[k].1)) is Some && out@[k].0@
                    == members@[k].0@ && Some(out@[k].1@) == vector_shape(members@[k].1),
        decreases members@.len() - i,
    {
        let (key, value) = &members[i];
        match classify_vector(value) {
            Some(v) => {
                out.push((key.clone(), v));
            },
            None => {
                proof {
                    lemma_first_invalid_at(members@, i as int);
                }
                return Err(ConversionError::InvalidVectorEncoding { key: key.clone() });
            },
        }
        i = i + 1;
    }
    assert(first_invalid(members@) is None) by {
        if exists|j: int|
            0 <= j < members@.len() && (#[trigger] vector_shape(members@[j].1)) is None {
            let j = choose|j: int|
                0 <= j < members@.len() && (#[trigger] vector_shape(members@[j].1)) is None;
            assert(vector_shape(members@[j].1) is Some);
        }
    }
    assert(out@.map_values(|e: (String, VectorData)| (e.0@, e.1@)) =~= members@.map_values(
        |e: (String, Json)| (e.0@, vector_shape(e.1)->Some_0),
    ));
    Ok(out)
}

/// Reads the vectors of a document whose top-level members are `members`.
fn document_vectors(members: &Vec<(String, Json)>) -> (r: Result<
    Vec<(String, VectorData)>,
    ConversionError,
>)
    ensures
        match r {
            Ok(v) => vectors_of(Json::Object(*members)) == Ok::<
                Seq<(Seq<char>, VectorShape)>,
                ErrorView,
            >(v@.map_values(|e: (String, VectorData)| (e.0@, e.1@))),
            Err(e) => vectors_of(Json::Object(*members)) == Err::<
                Seq<(Seq<char>, VectorShape)>,
                ErrorView,
            >(e@),
        },
{
    let vectors_key = String::from_str("vectors");
    proof {
        reveal_strlit("vectors");
    }
    match get_member(members, &vectors_key) {
        Some(Json::Object(named)) => named_vectors(named),
        Some(Json::Array(a)) => {
            if a.len() > 0 && all_numbers_exec(a) {
                let mut out: Vec<(String, VectorData)> = Vec::new();
                out.push((String::new(), VectorData::Dense(numbers_exec(a))));
                assert(out@.map_values(|e: (String, VectorData)| (e.0@, e.1@)) =~= seq![
                    (Seq::<char>::empty(), VectorShape::Dense(numbers_of(a@))),
                ]);
                Ok(out)
            } else {
                Err(ConversionError::InvalidVectorEncoding { key: String::new() })
            }
        },
        _ => Err(ConversionError::InvalidVectorsType),
    }
}

/// Turns a point document into the collection it names and the point to
/// upsert there, or the first reason it is not a valid point.
pub fn value_to_point(json: Json) -> (r: Result<(String, PointRequest), ConversionError>)
    ensures
        conversion_view(r) == conversion(json),
{
    let ghost doc = json;
    let collection_key = String::from_str("collection_name");
    let id_key = String::from_str("id");
    let payload_key = String::from_str("payload");
    proof {
        reveal_strlit("collection_name");
        reveal_strlit("id");
        reveal_strlit("payload");
        reveal_strlit("vectors");
    }
    let mut members = match json {
        Json::Object(members) => members,
        _ => {
            return Err(ConversionError::InvalidCollectionName);
        },
    };
    assert(doc == Json::Object(members));
    let collection = match get_member(&members, &collection_key) {
        Some(Json::Str(s)) => s.clone(),
        _ => {
            return Err(ConversionError::InvalidCollectionName);
        },
    };
    let id = match get_member(&members, &id_key) {
        Some(Json::Str(s)) => {
            if *s == String::new() {
                return Err(ConversionError::InvalidIdentifierType);
            }
            assert(s@.len() > 0) by {
                if s@.len() == 0 {
                    assert(s@ =~= Seq::<char>::empty());
                }
            }
            PointId::Uuid(s.clone())
        },
        Some(Json::Number(Num::Unsigned(n))) => PointId::Num(*n),
        _ => {
            return Err(ConversionError::InvalidIdentifierType);
        },
    };
    let vectors = match document_vectors(&members) {
        Ok(v) => v,
        Err(e) => {
            return Err(e);
        },
    };
    let payload = match find_member(&members, &payload_key) {
        None => Vec::new(),
        Some(i) => {
            let (_, value) = members.remove(i);
            match value {
                Json::Null => Vec::new(),
                Json::Object(p) => p,
                _ => {
                    return Err(ConversionError::InvalidPayloadType);
                },
            }
        },
    };
    let point = PointRequest { id, vectors, payload };
    proof {
        assert(point@.payload == payload_of(doc)->Some_0);
    }
    Ok((collection, point))
}

} // verus!
