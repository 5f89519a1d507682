//! The free-form description that a token carries.

use vstd::prelude::*;
use crate::identity::Identity;

verus! {

/// One typed value of a token's description.
#[derive(Debug, PartialEq, Eq)]
pub enum MetadataVal {
    TextContent(String),
    BlobContent(Vec<u8>),
    PrincipalContent(Identity),
    NestedContent(Vec<(String, MetadataVal)>),
}

/// A token's description: keys with their values, in the order given.
pub type MetadataDesc = Vec<(String, MetadataVal)>;

/// What a `MetadataVal` stands for.
pub ghost enum MetadataValView {
    TextContent(Seq<char>),
    BlobContent(Seq<u8>),
    PrincipalContent(Seq<u8>),
    NestedContent(Seq<(Seq<char>, MetadataValView)>),
}

/// What `value` stands for.
pub open spec fn val_view(value: MetadataVal) -> MetadataValView
    decreases value,
{
    match value {
        MetadataVal::TextContent(s) => MetadataValView::TextContent(s@),
        MetadataVal::BlobContent(b) => MetadataValView::BlobContent(b@),
        MetadataVal::PrincipalContent(p) => MetadataValView::PrincipalContent(p@),
        MetadataVal::NestedContent(v) => MetadataValView::NestedContent(
            Seq::new(
                v@.len(),
                |i: int|
                    if 0 <= i < v@.len() {
                        (v@[i].0@, val_view(v@[i].1))
                    } else {
                        (Seq::empty(), MetadataValView::BlobContent(Seq::empty()))
                    },
            ),
        ),
    }
}

impl DeepView for MetadataVal {
    type V = MetadataValView;

    open spec fn deep_view(&self) -> MetadataValView {
        val_view(*self)
    }
}

/// A nested value stands for what its entries stand for.
pub proof fn lemma_nested_view(entries: MetadataDesc)
    ensures
        MetadataVal::NestedContent(entries).deep_view() == MetadataValView::NestedContent(
            entries.deep_view(),
        ),
{
    let nested = MetadataVal::NestedContent(entries).deep_view()->NestedContent_0;
    assert(nested.len() == entries.deep_view().len());
    assert forall|i: int| 0 <= i < nested.len() implies nested[i] == entries.deep_view()[i] by {
        assert(entries.deep_view()[i] == entries@[i].deep_view());
    }
    assert(nested =~= entries.deep_view());
}

/// A copy of `entries`, key by key and value by value.
pub fn clone_metadata(entries: &MetadataDesc) -> (r: MetadataDesc)
    ensures
        r.deep_view() == entries.deep_view(),
    decreases entries,
{
    let mut copy: MetadataDesc = Vec::new();
    let mut i: usize = 0;
    while i < entries.len()
        invariant
            i <= entries@.len(),
            copy@.len() == i,
            forall|k: int| 0 <= k < i ==> copy@[k].deep_view() == entries@[k].deep_view(),
        decreases entries@.len() - i,
    {
        let value = entries[i].1.clone();
        copy.push((entries[i].0.clone(), value));
        i += 1;
    }
    assert(copy.deep_view() =~= entries.deep_view());
    copy
}

impl Clone for MetadataVal {
    fn clone(&self) -> (r: MetadataVal)
        ensures
            r.deep_view() == self.deep_view(),
        decreases self,
    {
        match self {
            MetadataVal::TextContent(s) => MetadataVal::TextContent(s.clone()),
            MetadataVal::BlobContent(b) => MetadataVal::BlobContent(b.clone()),
            MetadataVal::PrincipalContent(p) => MetadataVal::PrincipalContent(p.clone()),
            MetadataVal::NestedContent(v) => {
                let copy = clone_metadata(v);
                proof {
                    lemma_nested_view(copy);
                    lemma_nested_view(*v);
                }
                MetadataVal::NestedContent(copy)
            },
        }
    }
}

} // verus!
