use crate::classes::BaseClass;
use crate::render::{rendered, Render};
use vstd::prelude::*;

verus! {

/// What all class names are: values that render to text, can be cloned and
/// can be compared. Any of them can be joined to another with `+`.
pub trait Class: Render + Sized + Clone + PartialEq {
    /// The canonical text as an owned string.
    fn to_string(&self) -> (text: String)
        ensures
            text@ == self@,
    {
        rendered(self)
    }
}

/// Creates a new class.
pub fn classname(name: &'static str) -> (class: BaseClass)
    ensures
        class.name() == name,
        class@ == name@,
{
    BaseClass::new(name)
}

/// Rendering depends on the value alone: whatever `to_string` returns for one
/// class, at any two calls, is the same text, the class's own.
pub proof fn lemma_to_string_is_repeatable<C: Class>(class: C, first: String, second: String)
    requires
        call_ensures(C::to_string, (&class,), first),
        call_ensures(C::to_string, (&class,), second),
    ensures
        first@ == second@,
        first@ == class@,
{
}

} // verus!
