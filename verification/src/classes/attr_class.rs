use crate::class::Class;
use crate::classes::attr_list::{attr_names, AttrList, MAX_ATTRS};
use crate::classes::{optional_text, DuoClass, ElClass, OptionClass};
use crate::render::{rendered, Render};
use std::borrow::Cow;
use std::ops::Add;
use vstd::prelude::*;
use vstd::std_specs::convert::FromSpecImpl;
use vstd::std_specs::ops::AddSpecImpl;
use vstd::string::StringExecFns;

verus! {

/// The text that one attribute adds: a space, the block, `--` and the name.
pub open spec fn modifier(block: Seq<char>, name: Seq<char>) -> Seq<char> {
    seq![' '] + block + seq!['-', '-'] + name
}

/// The text that the attributes `names` add to `block`, one after the other.
pub open spec fn modifiers(block: Seq<char>, names: Seq<&'static str>) -> Seq<char>
    decreases names.len(),
{
    if names.len() == 0 {
        Seq::empty()
    } else {
        modifiers(block, names.drop_last()) + modifier(block, names.last()@)
    }
}

/// One more name adds its modifier at the end and leaves the rest as it was.
pub proof fn lemma_modifiers_push(block: Seq<char>, names: Seq<&'static str>, name: &'static str)
    ensures
        modifiers(block, names.push(name)) == modifiers(block, names) + modifier(block, name@),
{
    assert(names.push(name).drop_last() =~= names);
}

/// The modifiers of a list are those of any front part of it, followed by
/// those of the rest: each name's modifier stands where the name stands.
pub proof fn lemma_modifiers_split(
    block: Seq<char>,
    front: Seq<&'static str>,
    rest: Seq<&'static str>,
)
    ensures
        modifiers(block, front + rest) == modifiers(block, front) + modifiers(block, rest),
    decreases rest.len(),
{
    if rest.len() > 0 {
        lemma_modifiers_split(block, front, rest.drop_last());
        assert((front + rest).drop_last() =~= front + rest.drop_last());
    }
}

/// A class with attributes, rendered as the class followed by one
/// `class--name` for each attribute, in the order they were added.
#[derive(PartialEq, Debug)]
pub struct AttrClass<N> {
    parent: N,
    attrs: AttrList,
}

impl<N: Render> View for AttrClass<N> {
    type V = Seq<char>;

    open spec fn view(&self) -> Seq<char> {
        self.parent()@ + modifiers(self.parent()@, self.attrs())
    }
}

impl<N> AttrClass<N> {
    /// The class that the attributes belong to.
    pub closed spec fn parent(&self) -> N {
        self.parent
    }

    /// The attribute names, first added first.
    pub closed spec fn attrs(&self) -> Seq<&'static str> {
        attr_names(self.attrs)
    }
}

impl<N: Render> AttrClass<N> {
    /// `parent` with no attribute yet.
    pub fn new(parent: N) -> (class: Self)
        ensures
            class.parent() == parent,
            class.attrs() == Seq::<&'static str>::empty(),
            class@ == parent@,
    {
        Self { parent, attrs: AttrList::new() }
    }

    /// This class with `attr` added after the attributes it has.
    pub fn attr(self, attr: &'static str) -> (class: Self)
        requires
            self.attrs().len() < MAX_ATTRS,
        ensures
            class.parent() == self.parent(),
            class.attrs() == self.attrs().push(attr),
            class@ == self@ + modifier(self.parent()@, attr@),
    {
        let mut class = self;
        class.attrs.push(attr);
        proof {
            lemma_modifiers_push(self.parent()@, self.attrs(), attr);
        }
        class
    }

    /// Whether this class can take one more attribute.
    pub fn has_room(&self) -> (room: bool)
        ensures
            room == (self.attrs().len() < MAX_ATTRS),
    {
        self.attrs.as_slice().len() < MAX_ATTRS
    }

    /// `attr` for a class of any size: the class with `attr` added, or, where
    /// it has no room for another attribute, the class as it was.
    pub fn try_attr(self, attr: &'static str) -> (added: Result<Self, Self>)
        ensures
            added is Ok <==> self.attrs().len() < MAX_ATTRS,
            added matches Ok(class) ==> class.parent() == self.parent(),
            added matches Ok(class) ==> class.attrs() == self.attrs().push(attr),
            added matches Ok(class) ==> class@ == self@ + modifier(self.parent()@, attr@),
            added matches Err(class) ==> class == self,
    {
        if self.has_room() {
            Ok(self.attr(attr))
        } else {
            Err(self)
        }
    }

    /// This class, with `attr` added if `is_set` and unchanged if not.
    pub fn maybe_attr(self, attr: &'static str, is_set: bool) -> (class: Self)
        requires
            is_set ==> self.attrs().len() < MAX_ATTRS,
        ensures
            class.parent() == self.parent(),
            is_set ==> class.attrs() == self.attrs().push(attr),
            is_set ==> class@ == self@ + modifier(self.parent()@, attr@),
            !is_set ==> class == self,
    {
        if is_set {
            self.attr(attr)
        } else {
            self
        }
    }

    /// With the flag set, `maybe_attr` does what `attr` does: whatever the
    /// two return for one class and one name has the same parent, the same
    /// attributes and the same text.
    pub proof fn lemma_maybe_attr_set_is_attr(
        self,
        name: &'static str,
        by_attr: Self,
        by_maybe_attr: Self,
    )
        requires
            call_ensures(Self::attr, (self, name), by_attr),
            call_ensures(Self::maybe_attr, (self, name, true), by_maybe_attr),
        ensures
            by_maybe_attr.parent() == by_attr.parent(),
            by_maybe_attr.attrs() == by_attr.attrs(),
            by_maybe_attr@ == by_attr@,
    {
    }

    /// Attributes are rendered in the order of the calls that added them,
    /// each call adding one modifier at the end: after `attr(first)` and then
    /// `attr(second)` the text is that of `self`, the modifier for `first`
    /// and the modifier for `second`, also where the two names are the same
    /// or `self` has one of them already.
    pub proof fn lemma_attr_keeps_call_order(
        self,
        first: &'static str,
        second: &'static str,
        after_first: Self,
        after_second: Self,
    )
        requires
            call_ensures(Self::attr, (self, first), after_first),
            call_ensures(Self::attr, (after_first, second), after_second),
        ensures
            after_second.attrs() == self.attrs().push(first).push(second),
            after_second@ == self@ + modifier(self.parent()@, first@) + modifier(
                self.parent()@,
                second@,
            ),
    {
    }
}

impl<N: Render + Copy> AttrClass<N> {
    /// An element of the class that carries the attributes: `parent__class`.
    /// The attributes stay behind.
    pub fn el(&self, class: &'static str) -> (el: ElClass<N>)
        ensures
            el.parent() == self.parent(),
            el.name() == class,
            el@ == self.parent()@ + seq!['_', '_'] + class@,
    {
        ElClass::new(self.parent, class)
    }
}

impl<N: Render> Render for AttrClass<N> {
    fn render(&self, out: &mut String) {
        self.parent.render(out);
        let names = self.attrs.as_slice();
        let ghost block = self.parent()@;
        let ghost before = old(out)@;
        let mut i: usize = 0;
        while i < names.len()
            invariant
                i <= names@.len(),
                names@ == self.attrs(),
                block == self.parent()@,
                out@ == before + block + modifiers(block, names@.take(i as int)),
            decreases names@.len() - i,
        {
            out.append(" ");
            self.parent.render(out);
            out.append("--");
            out.append(names[i]);
            proof {
                reveal_strlit(" ");
                reveal_strlit("--");
                assert(names@.take(i + 1) =~= names@.take(i as int).push(names@[i as int]));
                lemma_modifiers_push(block, names@.take(i as int), names@[i as int]);
            }
            i += 1;
        }
        assert(names@.take(i as int) =~= names@);
    }
}

impl<N: Clone> Clone for AttrClass<N> {
    fn clone(&self) -> (copy: Self)
        ensures
            cloned(self.parent(), copy.parent()),
            copy.attrs() == self.attrs(),
    {
        Self { parent: self.parent.clone(), attrs: self.attrs.duplicate() }
    }
}

impl<N> Class for AttrClass<N> where N: Render + PartialEq + Clone {}

impl<N, O> Add<O> for AttrClass<N> where N: Class, O: Class {
    type Output = DuoClass<Self, O>;

    /// This class and `other` side by side: `self other`.
    fn add(self, other: O) -> (duo: Self::Output)
        ensures
            duo.left() == self,
            duo.right() == other,
            duo@ == self@ + seq![' '] + other@,
    {
        DuoClass::new(self, other)
    }
}

impl<N, O> AddSpecImpl<O> for AttrClass<N> where N: Class, O: Class {
    open spec fn obeys_add_spec() -> bool {
        true
    }

    open spec fn add_req(self, other: O) -> bool {
        true
    }

    open spec fn add_spec(self, other: O) -> Self::Output {
        DuoClass::new(self, other)
    }
}

impl<'s, N> Add<&'s str> for AttrClass<N> where N: Class {
    type Output = DuoClass<Self, &'s str>;

    /// This class and `other` side by side: `self other`.
    fn add(self, other: &'s str) -> (duo: Self::Output)
        ensures
            duo.left() == self,
            duo.right() == other,
            duo@ == self@ + seq![' '] + other@,
    {
        DuoClass::new(self, other)
    }
}

impl<'s, N> AddSpecImpl<&'s str> for AttrClass<N> where N: Class {
    open spec fn obeys_add_spec() -> bool {
        true
    }

    open spec fn add_req(self, other: &'s str) -> bool {
        true
    }

    open spec fn add_spec(self, other: &'s str) -> Self::Output {
        DuoClass::new(self, other)
    }
}

impl<N, O> Add<Option<O>> for AttrClass<N> where N: Class, O: Class {
    type Output = DuoClass<Self, OptionClass<O>>;

    /// This class and `other` side by side. Where there is no `other` the
    /// space stays: `self `.
    fn add(self, other: Option<O>) -> (duo: Self::Output)
        ensures
            duo.left() == self,
            duo.right().option() == other,
            duo@ == self@ + seq![' '] + optional_text(other),
    {
        DuoClass::new(self, OptionClass::new(other))
    }
}

impl<N, O> AddSpecImpl<Option<O>> for AttrClass<N> where N: Class, O: Class {
    open spec fn obeys_add_spec() -> bool {
        true
    }

    open spec fn add_req(self, other: Option<O>) -> bool {
        true
    }

    open spec fn add_spec(self, other: Option<O>) -> Self::Output {
        DuoClass::new(self, OptionClass::new(other))
    }
}

// No ghost code can build a `String`, so these conversions state their
// result on `from` itself, by its text.
impl<'a, N> From<AttrClass<N>> for Cow<'a, str> where N: Render {
    /// The text of `class`, owned.
    fn from(class: AttrClass<N>) -> (text: Self)
        ensures
            text@ == class@,
    {
        Cow::Owned(rendered(&class))
    }
}

impl<'a, N> FromSpecImpl<AttrClass<N>> for Cow<'a, str> where N: Render {
    open spec fn obeys_from_spec() -> bool {
        false
    }

    open spec fn from_spec(class: AttrClass<N>) -> Self {
        arbitrary()
    }
}

impl<N> From<AttrClass<N>> for String where N: Render {
    /// The text of `class`, as `to_string` gives it.
    fn from(class: AttrClass<N>) -> (text: Self)
        ensures
            text@ == class@,
    {
        rendered(&class)
    }
}

impl<N> FromSpecImpl<AttrClass<N>> for String where N: Render {
    open spec fn obeys_from_spec() -> bool {
        false
    }

    open spec fn from_spec(class: AttrClass<N>) -> Self {
        arbitrary()
    }
}

} // verus!
