use vstd::prelude::*;
use vstd::string::StringExecFns;

verus! {

/// A value with a canonical text: the string that stands in a `class`
/// attribute for it.
///
/// The text is the value's view. Rendering cannot fail and depends on the
/// value alone.
pub trait Render: View<V = Seq<char>> {
    /// Appends the canonical text to `out`, leaving what was there in place.
    fn render(&self, out: &mut String)
        ensures
            final(out)@ == old(out)@ + self@,
    ;
}

/// A string slice is a leaf whose text is the slice itself.
impl<'a> Render for &'a str {
    fn render(&self, out: &mut String) {
        out.append(*self);
    }
}

/// The canonical text of `class` in a string of its own.
pub(crate) fn rendered<C: Render>(class: &C) -> (text: String)
    ensures
        text@ == class@,
{
    let mut text = String::new();
    class.render(&mut text);
    text
}

} // verus!
