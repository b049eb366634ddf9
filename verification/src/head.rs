//! The entries of a reference advertisement and the pairs a query returns.

use vstd::prelude::*;
use crate::object_id::ObjectId;

verus! {

/// One entry of a remote's reference advertisement: the name of a reference
/// and the revision it points at.
#[derive(Debug, PartialEq, Eq)]
pub struct RemoteHead {
    pub name: String,
    pub oid: ObjectId,
}

/// What a [`RemoteHead`] stands for: its name as characters and its revision
/// identifier as bytes.
pub struct HeadView {
    pub name: Seq<char>,
    pub oid: Seq<u8>,
}

impl View for RemoteHead {
    type V = HeadView;

    open spec fn view(&self) -> HeadView {
        HeadView { name: self.name@, oid: self.oid@ }
    }
}

impl DeepView for RemoteHead {
    type V = HeadView;

    open spec fn deep_view(&self) -> HeadView {
        self@
    }
}

/// The pairs of reference name and revision identifier that stand for an
/// advertisement: one per entry, in the advertised order, with nothing left
/// out, merged or reordered.
pub open spec fn paired(heads: Seq<HeadView>) -> Seq<(Seq<char>, Seq<u8>)> {
    Seq::new(heads.len(), |i: int| (heads[i].name, heads[i].oid))
}

/// Turns the entries of an advertisement into the pairs that a query returns.
pub fn into_pairs(heads: Vec<RemoteHead>) -> (pairs: Vec<(String, ObjectId)>)
    ensures
        pairs.deep_view() == paired(heads.deep_view()),
{
    let ghost advertised = heads@;
    let mut pairs: Vec<(String, ObjectId)> = Vec::with_capacity(heads.len());
    for head in it: heads
        invariant
            it.seq() == advertised,
            pairs@.len() == it.index(),
            forall|j: int|
                0 <= j < it.index() ==> {
                    &&& (#[trigger] pairs@[j]).0@ == advertised[j].name@
                    &&& pairs@[j].1@ == advertised[j].oid@
                },
    {
        pairs.push((head.name, head.oid));
    }
    assert(pairs.deep_view() =~= paired(heads.deep_view()));
    pairs
}

} // verus!
