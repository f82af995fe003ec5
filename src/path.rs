//! Paths to the values that a validation pass visits.
use vstd::prelude::*;
use crate::text::{decimal, push_char, push_decimal};

verus! {

/// One step of a path: into a named field, or to an item of a sequence.
pub enum Segment {
    Field(Seq<char>),
    Item(nat),
}

/// The text of a path given by its steps: fields are joined with `.`, items
/// are written `[index]`, and the root contributes nothing.
pub open spec fn render(steps: Seq<Segment>) -> Seq<char>
    decreases steps.len(),
{
    if steps.len() == 0 {
        Seq::empty()
    } else {
        let parent = steps.drop_last();
        match steps.last() {
            Segment::Field(name) => if parent.len() == 0 {
                name
            } else {
                render(parent) + seq!['.'] + name
            },
            Segment::Item(index) => render(parent) + seq!['['] + decimal(index) + seq![']'],
        }
    }
}

/// Path to a value that is validated. Each node borrows its parent, so a
/// path is built without copying while a pass descends into a value.
pub enum ValidationPath<'a, 'b> {
    Root,
    Field { parent: &'b ValidationPath<'a, 'a>, name: &'a str },
    Item { parent: &'b ValidationPath<'a, 'a>, index: usize },
}

/// The steps of a path, from the root down.
pub open spec fn steps_of(p: &ValidationPath) -> Seq<Segment>
    decreases p,
{
    match p {
        ValidationPath::Root => Seq::empty(),
        ValidationPath::Field { parent, name } => steps_of(parent).push(Segment::Field(name@)),
        ValidationPath::Item { parent, index } => steps_of(parent).push(Segment::Item(*index as nat)),
    }
}

impl<'a, 'b> View for ValidationPath<'a, 'b> {
    type V = Seq<Segment>;

    open spec fn view(&self) -> Seq<Segment> {
        steps_of(self)
    }
}

impl<'a, 'b> ValidationPath<'a, 'b> {
    /// Appends the text of this path to `out`.
    pub fn write_to(&self, out: &mut String)
        ensures
            final(out)@ == old(out)@ + render(self@),
        decreases self,
    {
        match self {
            ValidationPath::Root => {
                assert(old(out)@ + render(self@) =~= old(out)@);
            },
            ValidationPath::Field { parent, name } => {
                assert(self@.drop_last() =~= (*parent)@);
                if parent.is_root() {
                    out.append(name);
                } else {
                    parent.write_to(out);
                    push_char(out, '.');
                    out.append(name);
                }
                assert(final(out)@ =~= old(out)@ + render(self@));
            },
            ValidationPath::Item { parent, index } => {
                parent.write_to(out);
                push_char(out, '[');
                push_decimal(out, *index as u128);
                push_char(out, ']');
                assert(self@.drop_last() =~= (*parent)@);
                assert(final(out)@ =~= old(out)@ + render(self@));
            },
        }
    }

    /// Whether this is the root, the path with no steps.
    pub fn is_root(&self) -> (r: bool)
        ensures
            r == (self@.len() == 0),
    {
        match self {
            ValidationPath::Root => true,
            ValidationPath::Field { parent, name } => false,
            ValidationPath::Item { parent, index } => false,
        }
    }

    /// The text of this path.
    pub fn to_string(&self) -> (r: String)
        ensures
            r@ == render(self@),
    {
        let mut s = String::new();
        self.write_to(&mut s);
        assert(s@ =~= render(self@));
        s
    }
}

} // verus!
