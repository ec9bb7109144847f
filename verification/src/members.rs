//! The members that a document must have.
//!
//! [`RequiredMembers`] says, for each part of the manifest that is an object
//! or an array of objects, which paths lead to a member that the schema
//! requires, and states as a law what decoding does once such a member is
//! taken out.

use crate::codec::elements_from_json;
use crate::codec::JsonCodec;
use crate::codec::lemma_elements_error;
use crate::codec::optional;
use crate::codec::required;
use crate::error::DecodeErrorView;
use crate::error::PathStep;
use crate::json::JsonModel;
use vstd::prelude::*;

verus! {

/// A type whose documents hold members that the schema requires, at their
/// top or further in.
pub trait RequiredMembers: JsonCodec {
    /// Whether `path` leads, through members and elements that the document
    /// `j` has, to a member that the schema requires.
    spec fn requires_member(j: JsonModel, path: Seq<PathStep>) -> bool;

    /// A document that stands for a value stands for none once a required
    /// member is taken out of it: decoding then fails with a mismatch that
    /// names the member by its path and says that nothing was found there.
    proof fn law_missing_member(j: JsonModel, path: Seq<PathStep>)
        requires
            Self::from_json(j) is Ok,
            Self::requires_member(j, path),
        ensures
            names_missing(Self::from_json(without(j, path)), path),
    ;
}

/// The document `j` without the member that `path` leads to. Where `path`
/// leads to no member, the document is left as it is.
pub open spec fn without(j: JsonModel, path: Seq<PathStep>) -> JsonModel
    decreases path.len(),
{
    if path.len() == 0 {
        j
    } else {
        let rest = path.drop_first();
        match (j, path[0]) {
            (JsonModel::Object(members), PathStep::Field(name)) => if rest.len() == 0 {
                JsonModel::Object(members.remove(name))
            } else if members.contains_key(name) {
                JsonModel::Object(members.insert(name, without(members[name], rest)))
            } else {
                j
            },
            (JsonModel::Array(items), PathStep::Index(i)) => if 0 <= i < items.len() {
                JsonModel::Array(items.update(i, without(items[i], rest)))
            } else {
                j
            },
            _ => j,
        }
    }
}

/// Whether a decoding failed with a mismatch at `path` where nothing was
/// found.
pub open spec fn names_missing<T>(r: Result<T, DecodeErrorView>, path: Seq<PathStep>) -> bool {
    match r {
        Err(DecodeErrorView::SchemaMismatch { path: at, actual, .. }) => at == path && actual
            is None,
        _ => false,
    }
}

/// Whether `path` is the one step to the member `name`.
pub open spec fn leads_to(path: Seq<PathStep>, name: Seq<char>) -> bool {
    path.len() == 1 && path[0] == PathStep::Field(name)
}

/// Whether `path` leads through the member `name` of `j` to a member that
/// the schema requires inside it.
pub open spec fn leads_through<T: RequiredMembers>(
    j: JsonModel,
    path: Seq<PathStep>,
    name: Seq<char>,
) -> bool {
    &&& path.len() >= 2
    &&& path[0] == PathStep::Field(name)
    &&& j.member(name) is Some
    &&& T::requires_member(j.member(name)->0, path.drop_first())
}

/// Taking a member out leaves the kind of a document as it was.
pub proof fn lemma_without_kind(j: JsonModel, path: Seq<PathStep>)
    ensures
        without(j, path).kind() == j.kind(),
{
}

/// What taking out a member inside the member `name` does to the decoding
/// of that member, required or optional: it fails, and names the member that
/// was taken out.
pub proof fn lemma_missing_inside<T: RequiredMembers>(
    j: JsonModel,
    path: Seq<PathStep>,
    name: Seq<char>,
)
    requires
        leads_through::<T>(j, path, name),
        T::from_json(j.member(name)->0) is Ok,
    ensures
        without(j, path).member(name) == Some(without(j.member(name)->0, path.drop_first())),
        names_missing(required::<T>(without(j, path), name), path),
        names_missing(optional::<T>(without(j, path), name), path),
        forall|other: Seq<char>|
            other != name ==> without(j, path).member(other) == j.member(other),
{
    let inner = j.member(name)->0;
    let rest = path.drop_first();
    T::law_missing_member(inner, rest);
    assert(seq![PathStep::Field(name)] + rest =~= path);
    lemma_without_kind(inner, rest);
}

/// What taking out the member `name` does to the decoding of it, and that
/// it leaves the other members alone.
pub proof fn lemma_missing_here<T: JsonCodec>(j: JsonModel, path: Seq<PathStep>, name: Seq<char>)
    requires
        leads_to(path, name),
        j is Object,
    ensures
        without(j, path).member(name) is None,
        names_missing(required::<T>(without(j, path), name), path),
        forall|other: Seq<char>|
            other != name ==> without(j, path).member(other) == j.member(other),
{
    assert(seq![PathStep::Field(name)] =~= path);
}

/// Where the elements of an array all decode, so does each of them.
pub proof fn lemma_elements_ok<T: JsonCodec>(items: Seq<JsonModel>, k: int)
    requires
        elements_from_json::<T>(items) is Ok,
        0 <= k < items.len(),
    ensures
        T::from_json(items[k]) is Ok,
    decreases items.len(),
{
    if k < items.len() - 1 {
        lemma_elements_ok::<T>(items.drop_last(), k);
    }
}

/// Where each element of an array decodes, so do the elements together.
pub proof fn lemma_elements_all_ok<T: JsonCodec>(items: Seq<JsonModel>)
    requires
        forall|k: int| 0 <= k < items.len() ==> T::from_json(#[trigger] items[k]) is Ok,
    ensures
        elements_from_json::<T>(items) is Ok,
    decreases items.len(),
{
    if items.len() > 0 {
        let front = items.drop_last();
        assert forall|k: int| 0 <= k < front.len() implies T::from_json(#[trigger] front[k])
            is Ok by {
            assert(front[k] == items[k]);
        }
        lemma_elements_all_ok::<T>(front);
    }
}

/// The error of an array is that of its first element that fails, with the
/// element's position put in front of the path.
pub proof fn lemma_elements_first_error<T: JsonCodec>(items: Seq<JsonModel>, i: int)
    requires
        0 <= i < items.len(),
        forall|k: int| 0 <= k < i ==> T::from_json(#[trigger] items[k]) is Ok,
        T::from_json(items[i]) is Err,
    ensures
        elements_from_json::<T>(items) == Err::<Seq<T::V>, DecodeErrorView>(
            T::from_json(items[i])->Err_0.within(PathStep::Index(i)),
        ),
{
    let front = items.take(i);
    assert forall|k: int| 0 <= k < front.len() implies T::from_json(#[trigger] front[k])
        is Ok by {
        assert(front[k] == items[k]);
    }
    lemma_elements_all_ok::<T>(front);
    let upto = items.take(i + 1);
    assert(upto.drop_last() =~= front);
    assert(upto.last() == items[i]);
    lemma_elements_error::<T>(items, i + 1);
}

impl<T: RequiredMembers> RequiredMembers for Vec<T> {
    /// A path leads into an array through one of its elements.
    open spec fn requires_member(j: JsonModel, path: Seq<PathStep>) -> bool {
        match j {
            JsonModel::Array(items) => {
                &&& path.len() >= 2
                &&& path[0] matches PathStep::Index(i)
                &&& 0 <= i < items.len()
                &&& T::requires_member(items[i], path.drop_first())
            },
            _ => false,
        }
    }

    proof fn law_missing_member(j: JsonModel, path: Seq<PathStep>) {
        let items = j->Array_0;
        let i = path[0]->Index_0;
        let rest = path.drop_first();
        let changed = items.update(i, without(items[i], rest));
        assert(without(j, path) == JsonModel::Array(changed));
        lemma_elements_ok::<T>(items, i);
        T::law_missing_member(items[i], rest);
        assert forall|k: int| 0 <= k < i implies T::from_json(#[trigger] changed[k]) is Ok by {
            lemma_elements_ok::<T>(items, k);
        }
        lemma_elements_first_error::<T>(changed, i);
        assert(seq![PathStep::Index(i)] + rest =~= path);
    }
}

} // verus!
