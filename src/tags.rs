//! Lookup of a union's variant by its tag.
use vstd::prelude::*;
use crate::schema::VariantDecl;
use crate::tree::VariantNode;

verus! {

/// Something that carries the tag of a variant.
pub trait Tagged {
    /// The tag.
    spec fn tag_text(&self) -> Seq<char>;

    /// The tag.
    fn tag(&self) -> (r: &String)
        ensures
            r@ == self.tag_text(),
    ;
}

impl Tagged for VariantDecl {
    open spec fn tag_text(&self) -> Seq<char> {
        self.name@
    }

    fn tag(&self) -> (r: &String) {
        &self.name
    }
}

impl Tagged for VariantNode {
    open spec fn tag_text(&self) -> Seq<char> {
        self.name@
    }

    fn tag(&self) -> (r: &String) {
        &self.name
    }
}

/// The index of the first item with the given tag, or -1 if there is none.
pub open spec fn tag_index<T: Tagged>(items: Seq<T>, tag: Seq<char>) -> int
    decreases items.len(),
{
    if items.len() == 0 {
        -1
    } else if items[0].tag_text() == tag {
        0
    } else {
        let rest = tag_index(items.drop_first(), tag);
        if rest < 0 {
            -1
        } else {
            rest + 1
        }
    }
}

/// The index of the first item with the given tag, if any.
pub fn find_tag<T: Tagged>(items: &Vec<T>, tag: &String) -> (r: Option<usize>)
    ensures
        match r {
            Some(k) => k < items@.len() && k == tag_index(items@, tag@),
            None => tag_index(items@, tag@) == -1,
        },
{
    let mut i: usize = 0;
    while i < items.len()
        invariant
            i <= items@.len(),
            forall|j: int| 0 <= j < i ==> items@[j].tag_text() != tag@,
        decreases items@.len() - i,
    {
        if *items[i].tag() == *tag {
            proof {
                lemma_tag_found(items@, tag@, i as int);
            }
            return Some(i);
        }
        i = i + 1;
    }
    proof {
        lemma_tag_absent(items@, tag@);
    }
    None
}

proof fn lemma_tag_found<T: Tagged>(items: Seq<T>, tag: Seq<char>, i: int)
    requires
        0 <= i < items.len(),
        items[i].tag_text() == tag,
        forall|j: int| 0 <= j < i ==> items[j].tag_text() != tag,
    ensures
        tag_index(items, tag) == i,
    decreases i,
{
    if i > 0 {
        let rest = items.drop_first();
        assert forall|j: int| 0 <= j < i - 1 implies rest[j].tag_text() != tag by {
            assert(rest[j] == items[j + 1]);
        }
        lemma_tag_found(rest, tag, i - 1);
    }
}

proof fn lemma_tag_absent<T: Tagged>(items: Seq<T>, tag: Seq<char>)
    requires
        forall|j: int| 0 <= j < items.len() ==> items[j].tag_text() != tag,
    ensures
        tag_index(items, tag) == -1,
    decreases items.len(),
{
    if items.len() > 0 {
        let rest = items.drop_first();
        assert forall|j: int| 0 <= j < rest.len() implies rest[j].tag_text() != tag by {
            assert(rest[j] == items[j + 1]);
        }
        lemma_tag_absent(rest, tag);
    }
}

} // verus!
