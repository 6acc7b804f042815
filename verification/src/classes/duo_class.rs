use crate::class::Class;
use crate::classes::{optional_text, OptionClass};
use crate::render::{rendered, Render};
use std::borrow::Cow;
use std::ops::Add;
use vstd::prelude::*;
use vstd::std_specs::convert::FromSpecImpl;
use vstd::std_specs::ops::AddSpecImpl;
use vstd::string::StringExecFns;

verus! {

/// Two class names side by side, rendered as `left right`.
#[derive(PartialEq, Debug)]
pub struct DuoClass<L, R> {
    left: L,
    right: R,
}

impl<L: Render, R: Render> View for DuoClass<L, R> {
    type V = Seq<char>;

    open spec fn view(&self) -> Seq<char> {
        self.left()@ + seq![' '] + self.right()@
    }
}

impl<L, R> DuoClass<L, R> {
    /// The name that is rendered first.
    pub closed spec fn left(&self) -> L {
        self.left
    }

    /// The name that is rendered after the space.
    pub closed spec fn right(&self) -> R {
        self.right
    }
}

impl<L: Render, R: Render> DuoClass<L, R> {
    /// The value that `new` returns.
    pub closed spec fn spec_new(left: L, right: R) -> Self {
        DuoClass { left, right }
    }

    /// `left` and `right` side by side: `left right`.
    #[verifier::when_used_as_spec(spec_new)]
    pub fn new(left: L, right: R) -> (duo: Self)
        ensures
            duo == Self::spec_new(left, right),
            duo.left() == left,
            duo.right() == right,
            duo@ == left@ + seq![' '] + right@,
    {
        Self { left, right }
    }
}

/// Joining `a` with `b` and the result with `c`, as `a + b + c` does, renders
/// the three from left to right, one space between neighbours.
pub proof fn lemma_join_accumulates_left<A: Render, B: Render, C: Render>(a: A, b: B, c: C)
    ensures
        DuoClass::new(DuoClass::new(a, b), c)@ == a@ + seq![' '] + b@ + seq![' '] + c@,
{
}

/// Joining in the other order, `a` with the join of `b` and `c`, gives the
/// same text.
pub proof fn lemma_join_text_is_associative<A: Render, B: Render, C: Render>(a: A, b: B, c: C)
    ensures
        DuoClass::new(a, DuoClass::new(b, c))@ == DuoClass::new(DuoClass::new(a, b), c)@,
{
}

impl<L: Render, R: Render> Render for DuoClass<L, R> {
    fn render(&self, out: &mut String) {
        self.left.render(out);
        out.append(" ");
        self.right.render(out);
        proof {
            reveal_strlit(" ");
        }
    }
}

impl<L: Clone, R: Clone> Clone for DuoClass<L, R> {
    fn clone(&self) -> (copy: Self)
        ensures
            cloned(self.left(), copy.left()),
            cloned(self.right(), copy.right()),
    {
        Self { left: self.left.clone(), right: self.right.clone() }
    }
}

impl<L, R> Class for DuoClass<L, R> where
    L: Render + PartialEq + Clone,
    R: Render + PartialEq + Clone,
 {}

impl<'s, L, R> Add<&'s str> for DuoClass<L, R> where L: Render, R: Render {
    type Output = DuoClass<Self, &'s str>;

    /// This class and `other` side by side: `self other`.
    fn add(self, other: &'s str) -> (duo: Self::Output)
        ensures
            duo.left() == self,
            duo.right() == other,
            duo@ == self@ + seq![' '] + other@,
    {
        DuoClass::new(self, other)
    }
}

impl<'s, L, R> AddSpecImpl<&'s str> for DuoClass<L, R> where L: Render, R: Render {
    open spec fn obeys_add_spec() -> bool {
        true
    }

    open spec fn add_req(self, other: &'s str) -> bool {
        true
    }

    open spec fn add_spec(self, other: &'s str) -> Self::Output {
        DuoClass::new(self, other)
    }
}

impl<L, R, O> Add<O> for DuoClass<L, R> where L: Render, R: Render, O: Class {
    type Output = DuoClass<Self, O>;

    /// This class and `other` side by side: `self other`.
    fn add(self, other: O) -> (duo: Self::Output)
        ensures
            duo.left() == self,
            duo.right() == other,
            duo@ == self@ + seq![' '] + other@,
    {
        DuoClass::new(self, other)
    }
}

impl<L, R, O> AddSpecImpl<O> for DuoClass<L, R> where L: Render, R: Render, O: Class {
    open spec fn obeys_add_spec() -> bool {
        true
    }

    open spec fn add_req(self, other: O) -> bool {
        true
    }

    open spec fn add_spec(self, other: O) -> Self::Output {
        DuoClass::new(self, other)
    }
}

impl<L, R, O> Add<Option<O>> for DuoClass<L, R> where L: Render, R: Render, O: Class {
    type Output = DuoClass<Self, OptionClass<O>>;

    /// This class and `other` side by side. Where there is no `other` the
    /// space stays: `self `.
    fn add(self, other: Option<O>) -> (duo: Self::Output)
        ensures
            duo.left() == self,
            duo.right().option() == other,
            duo@ == self@ + seq![' '] + optional_text(other),
    {
        DuoClass::new(self, OptionClass::new(other))
    }
}

impl<L, R, O> AddSpecImpl<Option<O>> for DuoClass<L, R> where L: Render, R: Render, O: Class {
    open spec fn obeys_add_spec() -> bool {
        true
    }

    open spec fn add_req(self, other: Option<O>) -> bool {
        true
    }

    open spec fn add_spec(self, other: Option<O>) -> Self::Output {
        DuoClass::new(self, OptionClass::new(other))
    }
}

// No ghost code can build a `String`, so these conversions state their
// result on `from` itself, by its text.
impl<'a, L, R> From<DuoClass<L, R>> for Cow<'a, str> where L: Render, R: Render {
    /// The text of `class`, owned.
    fn from(class: DuoClass<L, R>) -> (text: Self)
        ensures
            text@ == class@,
    {
        Cow::Owned(rendered(&class))
    }
}

impl<'a, L, R> FromSpecImpl<DuoClass<L, R>> for Cow<'a, str> where L: Render, R: Render {
    open spec fn obeys_from_spec() -> bool {
        false
    }

    open spec fn from_spec(class: DuoClass<L, R>) -> Self {
        arbitrary()
    }
}

impl<L, R> From<DuoClass<L, R>> for String where L: Render, R: Render {
    /// The text of `class`, as `to_string` gives it.
    fn from(class: DuoClass<L, R>) -> (text: Self)
        ensures
            text@ == class@,
    {
        rendered(&class)
    }
}

impl<L, R> FromSpecImpl<DuoClass<L, R>> for String where L: Render, R: Render {
    open spec fn obeys_from_spec() -> bool {
        false
    }

    open spec fn from_spec(class: DuoClass<L, R>) -> Self {
        arbitrary()
    }
}

} // verus!
