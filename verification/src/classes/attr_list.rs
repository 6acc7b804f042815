//! The list that holds a class's attribute names: a `SmallVec` that keeps up
//! to three names inline.
//!
//! Verus does not look inside the list. What it holds is given a name,
//! [`attr_names`], and the four calls that the crate makes on it are stated
//! over that name. Those statements are taken from the source of `smallvec`
//! and are not proved here.

use smallvec::SmallVec;
use vstd::prelude::*;

verus! {

/// The attribute names of one class, in a `smallvec::SmallVec` with room for
/// three names before it moves to the heap.
#[derive(PartialEq, Debug)]
#[verifier::external_body]
pub struct AttrList {
    names: SmallVec<[&'static str; 3]>,
}

/// The names that a list holds, in the order in which they were pushed.
pub uninterp spec fn attr_names(attrs: AttrList) -> Seq<&'static str>;

/// A list with fewer names than this can take one more.
///
/// `SmallVec::push` grows a full list to the next power of two above its
/// length and panics with "capacity overflow" where that many names take
/// more than `isize::MAX` bytes. A name is two machine words, at most 16
/// bytes, and the next power of two is less than twice the new length: below
/// this bound the list takes less than `32 * MAX_ATTRS` bytes, which is
/// within `isize::MAX`.
pub const MAX_ATTRS: usize = usize::MAX / 64;

impl AttrList {
    /// `SmallVec::new`: claims that the new list holds no name. The check
    /// that the call makes on the layout of its array holds of every array.
    #[verifier::external_body]
    pub(crate) fn new() -> (attrs: AttrList)
        ensures
            attr_names(attrs) == Seq::<&'static str>::empty(),
    {
        AttrList { names: SmallVec::new() }
    }

    /// `SmallVec::push`: claims that the list then holds the names it held,
    /// in their order, and `name` after them. The call is made only on a list
    /// below [`MAX_ATTRS`], where the capacity it asks for cannot overflow.
    #[verifier::external_body]
    pub(crate) fn push(&mut self, name: &'static str)
        requires
            attr_names(*old(self)).len() < MAX_ATTRS,
        ensures
            attr_names(*final(self)) == attr_names(*old(self)).push(name),
    {
        self.names.push(name)
    }

    /// `SmallVec::clone`: claims that the copy holds the same names in the
    /// same order. The copy asks for no more room than the list has.
    #[verifier::external_body]
    pub(crate) fn duplicate(&self) -> (copy: AttrList)
        ensures
            attr_names(copy) == attr_names(*self),
    {
        AttrList { names: self.names.clone() }
    }

    /// `SmallVec::as_slice`: claims that the slice is the names of the list,
    /// in their order.
    #[verifier::external_body]
    pub(crate) fn as_slice(&self) -> (names: &[&'static str])
        ensures
            names@ == attr_names(*self),
    {
        self.names.as_slice()
    }
}

} // verus!
