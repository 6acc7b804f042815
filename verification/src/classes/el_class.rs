use crate::class::Class;
use crate::classes::{modifier, optional_text, AttrClass, DuoClass, OptionClass};
use crate::render::{rendered, Render};
use std::borrow::Cow;
use std::ops::Add;
use vstd::prelude::*;
use vstd::std_specs::convert::FromSpecImpl;
use vstd::std_specs::ops::AddSpecImpl;
use vstd::string::StringExecFns;

verus! {

/// An element of a class, rendered as `parent__name`.
#[derive(Copy, PartialEq, Debug)]
pub struct ElClass<N> {
    parent: N,
    class: &'static str,
}

impl<N: Render> View for ElClass<N> {
    type V = Seq<char>;

    open spec fn view(&self) -> Seq<char> {
        self.parent()@ + seq!['_', '_'] + self.name()@
    }
}

impl<N> ElClass<N> {
    /// The class that this element belongs to.
    pub closed spec fn parent(&self) -> N {
        self.parent
    }

    /// The element's own name.
    pub closed spec fn name(&self) -> &'static str {
        self.class
    }
}

impl<N: Render> ElClass<N> {
    /// The element `class` of `parent`: `parent__class`.
    pub fn new(parent: N, class: &'static str) -> (el: Self)
        ensures
            el.parent() == parent,
            el.name() == class,
            el@ == parent@ + seq!['_', '_'] + class@,
    {
        Self { parent, class }
    }

    /// An element of this element: `self__class`.
    pub fn el(self, class: &'static str) -> (el: ElClass<Self>)
        ensures
            el.parent() == self,
            el.name() == class,
            el@ == self@ + seq!['_', '_'] + class@,
    {
        ElClass { parent: self, class }
    }

    /// This element with the attribute `attr`: `self self--attr`.
    pub fn attr(self, attr: &'static str) -> (class: AttrClass<Self>)
        ensures
            class.parent() == self,
            class.attrs() == seq![attr],
            class@ == self@ + modifier(self@, attr@),
    {
        AttrClass::new(self).attr(attr)
    }

    /// This element, with the attribute `attr` if `is_set` and bare if not.
    pub fn maybe_attr(self, attr: &'static str, is_set: bool) -> (class: AttrClass<Self>)
        ensures
            class.parent() == self,
            is_set ==> class.attrs() == seq![attr],
            is_set ==> class@ == self@ + modifier(self@, attr@),
            !is_set ==> class.attrs() == Seq::<&'static str>::empty(),
            !is_set ==> class@ == self@,
    {
        AttrClass::new(self).maybe_attr(attr, is_set)
    }

    /// With the flag set, `maybe_attr` does what `attr` does: whatever the
    /// two return for one element and one name has the same parent, the same
    /// attributes and the same text.
    pub proof fn lemma_maybe_attr_set_is_attr(
        self,
        name: &'static str,
        by_attr: AttrClass<Self>,
        by_maybe_attr: AttrClass<Self>,
    )
        requires
            call_ensures(Self::attr, (self, name), by_attr),
            call_ensures(Self::maybe_attr, (self, name, true), by_maybe_attr),
        ensures
            by_maybe_attr.parent() == by_attr.parent(),
            by_maybe_attr.attrs() == by_attr.attrs(),
            by_maybe_attr@ == by_attr@,
    {
    }
}

impl<N: Render> Render for ElClass<N> {
    fn render(&self, out: &mut String) {
        self.parent.render(out);
        out.append("__");
        out.append(self.class);
        proof {
            reveal_strlit("__");
        }
    }
}

impl<N: Clone> Clone for ElClass<N> {
    fn clone(&self) -> (copy: Self)
        ensures
            cloned(self.parent(), copy.parent()),
            copy.name() == self.name(),
    {
        Self { parent: self.parent.clone(), class: self.class }
    }
}

impl<N> Class for ElClass<N> where N: Render + PartialEq + Clone {}

impl<N, O> Add<O> for ElClass<N> where N: Class, O: Class {
    type Output = DuoClass<Self, O>;

    /// This class and `other` side by side: `self other`.
    fn add(self, other: O) -> (duo: Self::Output)
        ensures
            duo.left() == self,
            duo.right() == other,
            duo@ == self@ + seq![' '] + other@,
    {
        DuoClass::new(self, other)
    }
}

impl<N, O> AddSpecImpl<O> for ElClass<N> where N: Class, O: Class {
    open spec fn obeys_add_spec() -> bool {
        true
    }

    open spec fn add_req(self, other: O) -> bool {
        true
    }

    open spec fn add_spec(self, other: O) -> Self::Output {
        DuoClass::new(self, other)
    }
}

impl<'s, N> Add<&'s str> for ElClass<N> where N: Class {
    type Output = DuoClass<Self, &'s str>;

    /// This class and `other` side by side: `self other`.
    fn add(self, other: &'s str) -> (duo: Self::Output)
        ensures
            duo.left() == self,
            duo.right() == other,
            duo@ == self@ + seq![' '] + other@,
    {
        DuoClass::new(self, other)
    }
}

impl<'s, N> AddSpecImpl<&'s str> for ElClass<N> where N: Class {
    open spec fn obeys_add_spec() -> bool {
        true
    }

    open spec fn add_req(self, other: &'s str) -> bool {
        true
    }

    open spec fn add_spec(self, other: &'s str) -> Self::Output {
        DuoClass::new(self, other)
    }
}

impl<N, O> Add<Option<O>> for ElClass<N> where N: Class, O: Class {
    type Output = DuoClass<Self, OptionClass<O>>;

    /// This class and `other` side by side. Where there is no `other` the
    /// space stays: `self `.
    fn add(self, other: Option<O>) -> (duo: Self::Output)
        ensures
            duo.left() == self,
            duo.right().option() == other,
            duo@ == self@ + seq![' '] + optional_text(other),
    {
        DuoClass::new(self, OptionClass::new(other))
    }
}

impl<N, O> AddSpecImpl<Option<O>> for ElClass<N> where N: Class, O: Class {
    open spec fn obeys_add_spec() -> bool {
        true
    }

    open spec fn add_req(self, other: Option<O>) -> bool {
        true
    }

    open spec fn add_spec(self, other: Option<O>) -> Self::Output {
        DuoClass::new(self, OptionClass::new(other))
    }
}

// No ghost code can build a `String`, so these conversions state their
// result on `from` itself, by its text.
impl<'a, N> From<ElClass<N>> for Cow<'a, str> where N: Render {
    /// The text of `class`, owned.
    fn from(class: ElClass<N>) -> (text: Self)
        ensures
            text@ == class@,
    {
        Cow::Owned(rendered(&class))
    }
}

impl<'a, N> FromSpecImpl<ElClass<N>> for Cow<'a, str> where N: Render {
    open spec fn obeys_from_spec() -> bool {
        false
    }

    open spec fn from_spec(class: ElClass<N>) -> Self {
        arbitrary()
    }
}

impl<N> From<ElClass<N>> for String where N: Render {
    /// The text of `class`, as `to_string` gives it.
    fn from(class: ElClass<N>) -> (text: Self)
        ensures
            text@ == class@,
    {
        rendered(&class)
    }
}

impl<N> FromSpecImpl<ElClass<N>> for String where N: Render {
    open spec fn obeys_from_spec() -> bool {
        false
    }

    open spec fn from_spec(class: ElClass<N>) -> Self {
        arbitrary()
    }
}

} // verus!
