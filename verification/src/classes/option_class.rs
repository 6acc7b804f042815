use crate::class::Class;
use crate::classes::DuoClass;
use crate::render::{rendered, Render};
use std::borrow::Cow;
use std::ops::Add;
use vstd::prelude::*;
use vstd::std_specs::convert::FromSpecImpl;
use vstd::std_specs::ops::AddSpecImpl;

verus! {

/// The text of a name that may be absent: the name's text, or nothing.
pub open spec fn optional_text<C: Render>(option: Option<C>) -> Seq<char> {
    match option {
        Some(class) => class@,
        None => Seq::empty(),
    }
}

/// A class name that may be absent, rendered as the name or as nothing.
#[derive(PartialEq, Debug)]
pub struct OptionClass<C> {
    option: Option<C>,
}

impl<C: Render> View for OptionClass<C> {
    type V = Seq<char>;

    open spec fn view(&self) -> Seq<char> {
        optional_text(self.option())
    }
}

impl<C> OptionClass<C> {
    /// The name, if there is one.
    pub closed spec fn option(&self) -> Option<C> {
        self.option
    }
}

impl<C: Render> OptionClass<C> {
    /// The value that `new` returns.
    pub closed spec fn spec_new(option: Option<C>) -> Self {
        OptionClass { option }
    }

    /// The class in `option` if there is one, and an empty class name if not.
    #[verifier::when_used_as_spec(spec_new)]
    pub fn new(option: Option<C>) -> (class: Self)
        ensures
            class == Self::spec_new(option),
            class.option() == option,
            class@ == optional_text(option),
    {
        Self { option }
    }
}

impl<C: Render> Render for OptionClass<C> {
    fn render(&self, out: &mut String) {
        if let Some(class) = &self.option {
            class.render(out);
        }
    }
}

impl<C: Clone> Clone for OptionClass<C> {
    fn clone(&self) -> (copy: Self)
        ensures
            self.option() is None ==> copy.option() is None,
            self.option() is Some ==> copy.option() is Some && cloned(
                self.option()->0,
                copy.option()->0,
            ),
    {
        Self { option: self.option.clone() }
    }
}

impl<C> Class for OptionClass<C> where C: Render + PartialEq + Clone {}

impl<C, O> Add<O> for OptionClass<C> where C: Class, O: Class {
    type Output = DuoClass<Self, O>;

    /// This class and `other` side by side: `self other`.
    fn add(self, other: O) -> (duo: Self::Output)
        ensures
            duo.left() == self,
            duo.right() == other,
            duo@ == self@ + seq![' '] + other@,
    {
        DuoClass::new(self, other)
    }
}

impl<C, O> AddSpecImpl<O> for OptionClass<C> where C: Class, O: Class {
    open spec fn obeys_add_spec() -> bool {
        true
    }

    open spec fn add_req(self, other: O) -> bool {
        true
    }

    open spec fn add_spec(self, other: O) -> Self::Output {
        DuoClass::new(self, other)
    }
}

impl<'s, C> Add<&'s str> for OptionClass<C> where C: Class {
    type Output = DuoClass<Self, &'s str>;

    /// This class and `other` side by side: `self other`.
    fn add(self, other: &'s str) -> (duo: Self::Output)
        ensures
            duo.left() == self,
            duo.right() == other,
            duo@ == self@ + seq![' '] + other@,
    {
        DuoClass::new(self, other)
    }
}

impl<'s, C> AddSpecImpl<&'s str> for OptionClass<C> where C: Class {
    open spec fn obeys_add_spec() -> bool {
        true
    }

    open spec fn add_req(self, other: &'s str) -> bool {
        true
    }

    open spec fn add_spec(self, other: &'s str) -> Self::Output {
        DuoClass::new(self, other)
    }
}

impl<C, O> Add<Option<O>> for OptionClass<C> where C: Class, O: Class {
    type Output = DuoClass<Self, OptionClass<O>>;

    /// This class and `other` side by side. Where there is no `other` the
    /// space stays: `self `.
    fn add(self, other: Option<O>) -> (duo: Self::Output)
        ensures
            duo.left() == self,
            duo.right().option() == other,
            duo@ == self@ + seq![' '] + optional_text(other),
    {
        DuoClass::new(self, OptionClass::new(other))
    }
}

impl<C, O> AddSpecImpl<Option<O>> for OptionClass<C> where C: Class, O: Class {
    open spec fn obeys_add_spec() -> bool {
        true
    }

    open spec fn add_req(self, other: Option<O>) -> bool {
        true
    }

    open spec fn add_spec(self, other: Option<O>) -> Self::Output {
        DuoClass::new(self, OptionClass::new(other))
    }
}

// No ghost code can build a `String`, so these conversions state their
// result on `from` itself, by its text.
impl<'a, C> From<OptionClass<C>> for Cow<'a, str> where C: Render {
    /// The text of `class`, owned.
    fn from(class: OptionClass<C>) -> (text: Self)
        ensures
            text@ == class@,
    {
        Cow::Owned(rendered(&class))
    }
}

impl<'a, C> FromSpecImpl<OptionClass<C>> for Cow<'a, str> where C: Render {
    open spec fn obeys_from_spec() -> bool {
        false
    }

    open spec fn from_spec(class: OptionClass<C>) -> Self {
        arbitrary()
    }
}

impl<C> From<OptionClass<C>> for String where C: Render {
    /// The text of `class`, as `to_string` gives it.
    fn from(class: OptionClass<C>) -> (text: Self)
        ensures
            text@ == class@,
    {
        rendered(&class)
    }
}

impl<C> FromSpecImpl<OptionClass<C>> for String where C: Render {
    open spec fn obeys_from_spec() -> bool {
        false
    }

    open spec fn from_spec(class: OptionClass<C>) -> Self {
        arbitrary()
    }
}

} // verus!
