//! How a type is read from a JSON document and written to one.
//!
//! [`JsonCodec`] is what every part of the manifest implements. It gives the
//! meaning of both directions as functions on [`JsonModel`], the executable
//! functions that compute them on `serde_json::Value`, and the law that ties
//! the two directions together: what is written reads back as itself.
//!
//! Strings, booleans, small integers and arrays have their codec here. So do
//! the two ways in which an object holds a member: one that must be there,
//! and one that may be left out or be `null`.

use crate::error::decoded;
use crate::error::DecodeError;
use crate::error::DecodeErrorView;
use crate::error::Expected;
use crate::error::mismatch;
use crate::error::missing;
use crate::error::PathSegment;
use crate::error::PathStep;
use crate::json::JsonKind;
use crate::json::JsonModel;
use crate::json::JsonNumber;
use crate::json::object_insert;
use crate::json::object_model;
use crate::json::value_array;
use crate::json::value_bool;
use crate::json::value_get;
use crate::json::value_kind;
use crate::json::value_model;
use crate::json::value_null;
use crate::json::value_small;
use crate::json::value_string;
use vstd::prelude::*;

verus! {

/// A type with a JSON form.
pub trait JsonCodec: DeepView + Sized {
    /// What the schema asks a document to be for a value of this type.
    spec fn expected() -> Expected;

    /// The value that a document stands for, or why it stands for none.
    spec fn from_json(j: JsonModel) -> Result<Self::V, DecodeErrorView>;

    /// The document that stands for a value.
    spec fn to_json(x: Self::V) -> JsonModel;

    /// What the schema asks a document to be for a value of this type.
    fn expects() -> (e: Expected)
        ensures
            e == Self::expected(),
    ;

    /// Reads a value from a document.
    fn from_value(v: &serde_json::Value) -> (r: Result<Self, DecodeError>)
        ensures
            decoded(r) == Self::from_json(value_model(*v)),
    ;

    /// Writes a value as a document.
    fn to_value(&self) -> (v: serde_json::Value)
        ensures
            value_model(v) == Self::to_json(self.deep_view()),
    ;

    /// The document written for a value is of the expected kind and reads
    /// back as that value.
    proof fn law_round_trip(x: Self::V)
        ensures
            Self::to_json(x).kind() == Self::expected().kind(),
            Self::from_json(Self::to_json(x)) == Ok::<Self::V, DecodeErrorView>(x),
    ;
}

impl JsonCodec for String {
    open spec fn expected() -> Expected {
        Expected::String
    }

    open spec fn from_json(j: JsonModel) -> Result<Seq<char>, DecodeErrorView> {
        match j {
            JsonModel::String(s) => Ok(s),
            _ => Err(mismatch(Expected::String, j.kind())),
        }
    }

    open spec fn to_json(x: Seq<char>) -> JsonModel {
        JsonModel::String(x)
    }

    fn expects() -> (e: Expected) {
        Expected::String
    }

    fn from_value(v: &serde_json::Value) -> (r: Result<String, DecodeError>) {
        match v.as_str() {
            Some(s) => Ok(s.to_owned()),
            None => Err(DecodeError::wrong_kind(Expected::String, value_kind(v))),
        }
    }

    fn to_value(&self) -> (v: serde_json::Value) {
        value_string(self.clone())
    }

    proof fn law_round_trip(x: Seq<char>) {
    }
}

impl JsonCodec for bool {
    open spec fn expected() -> Expected {
        Expected::Bool
    }

    open spec fn from_json(j: JsonModel) -> Result<bool, DecodeErrorView> {
        match j {
            JsonModel::Bool(b) => Ok(b),
            _ => Err(mismatch(Expected::Bool, j.kind())),
        }
    }

    open spec fn to_json(x: bool) -> JsonModel {
        JsonModel::Bool(x)
    }

    fn expects() -> (e: Expected) {
        Expected::Bool
    }

    fn from_value(v: &serde_json::Value) -> (r: Result<bool, DecodeError>) {
        match v.as_bool() {
            Some(b) => Ok(b),
            None => Err(DecodeError::wrong_kind(Expected::Bool, value_kind(v))),
        }
    }

    fn to_value(&self) -> (v: serde_json::Value) {
        value_bool(*self)
    }

    proof fn law_round_trip(x: bool) {
    }
}

impl JsonCodec for u8 {
    open spec fn expected() -> Expected {
        Expected::SmallUnsigned
    }

    /// A number stands for a `u8` where it is an integer from 0 to 255.
    open spec fn from_json(j: JsonModel) -> Result<u8, DecodeErrorView> {
        match j {
            JsonModel::Number(JsonNumber::Unsigned(n)) if n <= 255 => Ok(n as u8),
            _ => Err(mismatch(Expected::SmallUnsigned, j.kind())),
        }
    }

    open spec fn to_json(x: u8) -> JsonModel {
        JsonModel::Number(JsonNumber::Unsigned(x as u64))
    }

    fn expects() -> (e: Expected) {
        Expected::SmallUnsigned
    }

    fn from_value(v: &serde_json::Value) -> (r: Result<u8, DecodeError>) {
        match v.as_u64() {
            Some(n) if n <= 255 => Ok(n as u8),
            _ => Err(DecodeError::wrong_kind(Expected::SmallUnsigned, value_kind(v))),
        }
    }

    fn to_value(&self) -> (v: serde_json::Value) {
        value_small(*self)
    }

    proof fn law_round_trip(x: u8) {
    }
}

/// The decoding of the elements of an array, in order: the first element
/// that fails gives the error, with its position put in front of the path.
pub open spec fn elements_from_json<T: JsonCodec>(items: Seq<JsonModel>) -> Result<
    Seq<T::V>,
    DecodeErrorView,
>
    decreases items.len(),
{
    if items.len() == 0 {
        Ok(Seq::empty())
    } else {
        match elements_from_json::<T>(items.drop_last()) {
            Err(e) => Err(e),
            Ok(front) => match T::from_json(items.last()) {
                Ok(value) => Ok(front.push(value)),
                Err(e) => Err(e.within(PathStep::Index(items.len() - 1))),
            },
        }
    }
}

/// The documents written for the elements of a sequence.
pub open spec fn elements_to_json<T: JsonCodec>(x: Seq<T::V>) -> Seq<JsonModel> {
    Seq::new(x.len(), |i: int| T::to_json(x[i]))
}

/// An error among the first elements of an array is the error of the whole.
pub proof fn lemma_elements_error<T: JsonCodec>(items: Seq<JsonModel>, n: int)
    requires
        0 <= n <= items.len(),
        elements_from_json::<T>(items.take(n)) is Err,
    ensures
        elements_from_json::<T>(items) == elements_from_json::<T>(items.take(n)),
    decreases items.len() - n,
{
    if n == items.len() {
        assert(items.take(n) =~= items);
    } else {
        assert(items.take(n + 1).drop_last() =~= items.take(n));
        lemma_elements_error::<T>(items, n + 1);
    }
}

/// The documents written for a sequence read back as the sequence.
pub proof fn lemma_elements_round_trip<T: JsonCodec>(x: Seq<T::V>)
    ensures
        elements_from_json::<T>(elements_to_json::<T>(x)) == Ok::<Seq<T::V>, DecodeErrorView>(x),
    decreases x.len(),
{
    let items = elements_to_json::<T>(x);
    if x.len() == 0 {
        assert(x =~= Seq::<T::V>::empty());
    } else {
        lemma_elements_round_trip::<T>(x.drop_last());
        assert(items.drop_last() =~= elements_to_json::<T>(x.drop_last()));
        T::law_round_trip(x.last());
        assert(x.drop_last().push(x.last()) =~= x);
    }
}

impl<T: JsonCodec> JsonCodec for Vec<T> {
    open spec fn expected() -> Expected {
        Expected::Array
    }

    open spec fn from_json(j: JsonModel) -> Result<Seq<T::V>, DecodeErrorView> {
        match j {
            JsonModel::Array(items) => elements_from_json::<T>(items),
            _ => Err(mismatch(Expected::Array, j.kind())),
        }
    }

    open spec fn to_json(x: Seq<T::V>) -> JsonModel {
        JsonModel::Array(elements_to_json::<T>(x))
    }

    fn expects() -> (e: Expected) {
        Expected::Array
    }

    fn from_value(v: &serde_json::Value) -> (r: Result<Vec<T>, DecodeError>) {
        let items = match v.as_array() {
            Some(items) => items,
            None => {
                return Err(DecodeError::wrong_kind(Expected::Array, value_kind(v)));
            },
        };
        let ghost models = items@.map_values(|x: serde_json::Value| value_model(x));
        let mut out: Vec<T> = Vec::new();
        let mut i: usize = 0;
        assert(models.take(0) =~= Seq::<JsonModel>::empty());
        assert(out.deep_view() =~= Seq::<T::V>::empty());
        while i < items.len()
            invariant
                i <= items.len(),
                models == items@.map_values(|x: serde_json::Value| value_model(x)),
                value_model(*v) == JsonModel::Array(models),
                elements_from_json::<T>(models.take(i as int)) == Ok::<
                    Seq<T::V>,
                    DecodeErrorView,
                >(out.deep_view()),
            decreases items.len() - i,
        {
            let ghost front = out.deep_view();
            proof {
                assert(models.take(i + 1).drop_last() =~= models.take(i as int));
                assert(models.take(i + 1).last() == value_model(items[i as int]));
            }
            match T::from_value(&items[i]) {
                Ok(value) => {
                    out.push(value);
                    assert(out.deep_view() =~= front.push(value.deep_view()));
                },
                Err(e) => {
                    let e = e.within(PathSegment::Index(i));
                    proof {
                        assert(models.take(i + 1).len() == i + 1);
                        assert(elements_from_json::<T>(models.take(i + 1)) == Err::<
                            Seq<T::V>,
                            DecodeErrorView,
                        >(e@));
                        lemma_elements_error::<T>(models, i + 1);
                    }
                    return Err(e);
                },
            }
            i += 1;
        }
        assert(models.take(i as int) =~= models);
        Ok(out)
    }

    fn to_value(&self) -> (v: serde_json::Value) {
        let mut items: Vec<serde_json::Value> = Vec::new();
        let mut i: usize = 0;
        while i < self.len()
            invariant
                i <= self.len(),
                items.len() == i,
                forall|k: int|
                    0 <= k < i ==> value_model(#[trigger] items[k]) == T::to_json(
                        self[k].deep_view(),
                    ),
            decreases self.len() - i,
        {
            items.push(self[i].to_value());
            i += 1;
        }
        assert(items@.map_values(|x: serde_json::Value| value_model(x)) =~= elements_to_json::<T>(
            self.deep_view(),
        ));
        value_array(items)
    }

    proof fn law_round_trip(x: Seq<T::V>) {
        lemma_elements_round_trip::<T>(x);
    }
}

/// The decoding of a member that must be there, with the member's name put
/// in front of the path of an error.
pub open spec fn required<T: JsonCodec>(j: JsonModel, name: Seq<char>) -> Result<
    T::V,
    DecodeErrorView,
> {
    match j.member(name) {
        None => Err(missing(name, T::expected())),
        Some(x) => match T::from_json(x) {
            Ok(value) => Ok(value),
            Err(e) => Err(e.within(PathStep::Field(name))),
        },
    }
}

/// The decoding of a member that may be left out or be `null`, which both
/// stand for no value.
pub open spec fn optional<T: JsonCodec>(j: JsonModel, name: Seq<char>) -> Result<
    Option<T::V>,
    DecodeErrorView,
> {
    match j.member(name) {
        None => Ok(None),
        Some(JsonModel::Null) => Ok(None),
        Some(x) => match T::from_json(x) {
            Ok(value) => Ok(Some(value)),
            Err(e) => Err(e.within(PathStep::Field(name))),
        },
    }
}

/// The document written for a value that may be absent: `null` stands for no
/// value.
pub open spec fn optional_to_json<T: JsonCodec>(x: Option<T::V>) -> JsonModel {
    match x {
        Some(value) => T::to_json(value),
        None => JsonModel::Null,
    }
}

/// Tells whether a document is an object, and gives the error for one that
/// is not.
pub fn expect_object(v: &serde_json::Value) -> (r: Result<(), DecodeError>)
    ensures
        match r {
            Ok(_) => value_model(*v) is Object,
            Err(e) => !(value_model(*v) is Object) && e@ == mismatch(
                Expected::Object,
                value_model(*v).kind(),
            ),
        },
{
    match value_kind(v) {
        JsonKind::Object => Ok(()),
        other => Err(DecodeError::wrong_kind(Expected::Object, other)),
    }
}

/// Reads a member that must be there.
pub fn required_member<T: JsonCodec>(v: &serde_json::Value, name: &'static str) -> (r: Result<
    T,
    DecodeError,
>)
    ensures
        decoded(r) == required::<T>(value_model(*v), name@),
{
    match value_get(v, name) {
        None => Err(DecodeError::absent(name, T::expects())),
        Some(x) => match T::from_value(x) {
            Ok(value) => Ok(value),
            Err(e) => Err(e.within(PathSegment::Field(name))),
        },
    }
}

/// Reads a member that may be left out or be `null`.
pub fn optional_member<T: JsonCodec>(v: &serde_json::Value, name: &'static str) -> (r: Result<
    Option<T>,
    DecodeError,
>)
    ensures
        decoded(r) == optional::<T>(value_model(*v), name@),
{
    match value_get(v, name) {
        None => Ok(None),
        Some(x) => match value_kind(x) {
            JsonKind::Null => Ok(None),
            _ => match T::from_value(x) {
                Ok(value) => Ok(Some(value)),
                Err(e) => Err(e.within(PathSegment::Field(name))),
            },
        },
    }
}

/// Writes a value as the member `name` of an object.
pub fn insert_member<T: JsonCodec>(
    members: &mut serde_json::Map<String, serde_json::Value>,
    name: &'static str,
    value: &T,
)
    ensures
        object_model(*final(members)) == object_model(*old(members)).insert(
            name@,
            T::to_json(value.deep_view()),
        ),
{
    object_insert(members, name.to_owned(), value.to_value());
}

/// Writes a value that may be absent as the member `name` of an object:
/// `null` where there is none.
pub fn insert_optional_member<T: JsonCodec>(
    members: &mut serde_json::Map<String, serde_json::Value>,
    name: &'static str,
    value: &Option<T>,
)
    ensures
        object_model(*final(members)) == object_model(*old(members)).insert(
            name@,
            optional_to_json::<T>(value.deep_view()),
        ),
{
    let member = match value {
        Some(x) => x.to_value(),
        None => value_null(),
    };
    object_insert(members, name.to_owned(), member);
}

} // verus!
