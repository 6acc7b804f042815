use crate::class::Class;
use crate::classes::{modifier, optional_text, AttrClass, DuoClass, ElClass, OptionClass};
use crate::render::{rendered, Render};
use std::borrow::Cow;
use std::ops::Add;
use vstd::prelude::*;
use vstd::std_specs::convert::FromSpecImpl;
use vstd::std_specs::ops::AddSpecImpl;
use vstd::string::StringExecFns;

verus! {

/// The root of a class name: a block, rendered as its name.
#[derive(Copy, Clone, PartialEq, Debug)]
pub struct BaseClass {
    class: &'static str,
}

impl View for BaseClass {
    type V = Seq<char>;

    open spec fn view(&self) -> Seq<char> {
        self.name()@
    }
}

impl BaseClass {
    /// The name that this class was created with.
    pub closed spec fn name(&self) -> &'static str {
        self.class
    }

    /// The block named `base`.
    pub fn new(base: &'static str) -> (class: Self)
        ensures
            class.name() == base,
            class@ == base@,
    {
        Self { class: base }
    }

    /// The block's name, which is also its text.
    pub fn class(&self) -> (name: &'static str)
        ensures
            name == self.name(),
            name@ == self@,
    {
        self.class
    }

    /// An element of this block: `self__class`.
    pub fn el(self, class: &'static str) -> (el: ElClass<Self>)
        ensures
            el.parent() == self,
            el.name() == class,
            el@ == self@ + seq!['_', '_'] + class@,
    {
        ElClass::new(self, class)
    }

    /// This block with the attribute `attr`: `self self--attr`.
    pub fn attr(self, attr: &'static str) -> (class: AttrClass<Self>)
        ensures
            class.parent() == self,
            class.attrs() == seq![attr],
            class@ == self@ + modifier(self@, attr@),
    {
        AttrClass::new(self).attr(attr)
    }

    /// This block, with the attribute `attr` if `is_set` and bare if not.
    pub fn maybe_attr(self, attr: &'static str, is_set: bool) -> (class: AttrClass<Self>)
        ensures
            class.parent() == self,
            is_set ==> class.attrs() == seq![attr],
            is_set ==> class@ == self@ + modifier(self@, attr@),
            !is_set ==> class.attrs() == Seq::<&'static str>::empty(),
            !is_set ==> class@ == self@,
    {
        AttrClass::new(self).maybe_attr(attr, is_set)
    }

    /// With the flag set, `maybe_attr` does what `attr` does: whatever the
    /// two return for one block and one name has the same parent, the same
    /// attributes and the same text.
    pub proof fn lemma_maybe_attr_set_is_attr(
        self,
        name: &'static str,
        by_attr: AttrClass<Self>,
        by_maybe_attr: AttrClass<Self>,
    )
        requires
            call_ensures(BaseClass::attr, (self, name), by_attr),
            call_ensures(BaseClass::maybe_attr, (self, name, true), by_maybe_attr),
        ensures
            by_maybe_attr.parent() == by_attr.parent(),
            by_maybe_attr.attrs() == by_attr.attrs(),
            by_maybe_attr@ == by_attr@,
    {
    }
}

impl Render for BaseClass {
    fn render(&self, out: &mut String) {
        out.append(self.class);
    }
}

impl Class for BaseClass {}

impl<'s> Add<&'s str> for BaseClass {
    type Output = DuoClass<Self, &'s str>;

    /// This class and `other` side by side: `self other`.
    fn add(self, other: &'s str) -> (duo: Self::Output)
        ensures
            duo.left() == self,
            duo.right() == other,
            duo@ == self@ + seq![' '] + other@,
    {
        DuoClass::new(self, other)
    }
}

impl<'s> AddSpecImpl<&'s str> for BaseClass {
    open spec fn obeys_add_spec() -> bool {
        true
    }

    open spec fn add_req(self, other: &'s str) -> bool {
        true
    }

    open spec fn add_spec(self, other: &'s str) -> Self::Output {
        DuoClass::new(self, other)
    }
}

impl<O> Add<Option<O>> for BaseClass where O: Class {
    type Output = DuoClass<Self, OptionClass<O>>;

    /// This class and `other` side by side. Where there is no `other` the
    /// space stays: `self `.
    fn add(self, other: Option<O>) -> (duo: Self::Output)
        ensures
            duo.left() == self,
            duo.right().option() == other,
            duo@ == self@ + seq![' '] + optional_text(other),
    {
        DuoClass::new(self, OptionClass::new(other))
    }
}

impl<O> AddSpecImpl<Option<O>> for BaseClass where O: Class {
    open spec fn obeys_add_spec() -> bool {
        true
    }

    open spec fn add_req(self, other: Option<O>) -> bool {
        true
    }

    open spec fn add_spec(self, other: Option<O>) -> Self::Output {
        DuoClass::new(self, OptionClass::new(other))
    }
}

impl<O> Add<O> for BaseClass where O: Class {
    type Output = DuoClass<Self, O>;

    /// This class and `other` side by side: `self other`.
    fn add(self, other: O) -> (duo: Self::Output)
        ensures
            duo.left() == self,
            duo.right() == other,
            duo@ == self@ + seq![' '] + other@,
    {
        DuoClass::new(self, other)
    }
}

impl<O> AddSpecImpl<O> for BaseClass where O: Class {
    open spec fn obeys_add_spec() -> bool {
        true
    }

    open spec fn add_req(self, other: O) -> bool {
        true
    }

    open spec fn add_spec(self, other: O) -> Self::Output {
        DuoClass::new(self, other)
    }
}

impl<'a> From<BaseClass> for Cow<'a, str> {
    /// The name, borrowed.
    fn from(class: BaseClass) -> (text: Self)
        ensures
            text@ == class@,
    {
        Cow::Borrowed(class.class())
    }
}

impl<'a> FromSpecImpl<BaseClass> for Cow<'a, str> {
    open spec fn obeys_from_spec() -> bool {
        true
    }

    open spec fn from_spec(class: BaseClass) -> Self {
        Cow::Borrowed(class.name())
    }
}

impl From<BaseClass> for &'static str {
    /// The name.
    fn from(class: BaseClass) -> (text: Self)
        ensures
            text@ == class@,
    {
        class.class()
    }
}

impl FromSpecImpl<BaseClass> for &'static str {
    open spec fn obeys_from_spec() -> bool {
        true
    }

    open spec fn from_spec(class: BaseClass) -> Self {
        class.name()
    }
}

// No ghost code can build a `String`, so this conversion states its result
// on `from` itself, by its text.
impl From<BaseClass> for String {
    /// The name, as an owned string.
    fn from(class: BaseClass) -> (text: Self)
        ensures
            text@ == class@,
    {
        rendered(&class)
    }
}

impl FromSpecImpl<BaseClass> for String {
    open spec fn obeys_from_spec() -> bool {
        false
    }

    open spec fn from_spec(class: BaseClass) -> Self {
        arbitrary()
    }
}

} // verus!
