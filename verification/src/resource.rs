//! The data record behind the scriptable resource class.

use vstd::prelude::*;

verus! {

/// A constant that the resource class publishes to scripts.
pub const CUSTOM_CONST: i32 = 999;

/// Three integers that scripts can read and write. The record has no
/// invariant: every combination of values is a valid resource.
#[derive(Clone, Copy, Debug, PartialEq, Eq, Structural)]
pub struct RustResource {
    /// Starts at 12.
    pub a: i64,
    /// Starts at 0.
    pub b: i64,
    /// Starts at 0. Scripts reach it through [`RustResource::get_pro`] and
    /// [`RustResource::set_pro`].
    pub pro: i64,
}

impl Default for RustResource {
    /// A fresh resource: `a` is 12, the other two fields are 0.
    fn default() -> (resource: Self)
        ensures
            resource.a == 12,
            resource.b == 0,
            resource.pro == 0,
    {
        RustResource { a: 12, b: 0, pro: 0 }
    }
}

impl RustResource {
    /// A method that shares its name with the field `a` and has nothing to do
    /// with it: the answer is always 1234, and the record is left as it was.
    pub fn a(&mut self) -> (value: i64)
        ensures
            value == 1234,
            *final(self) == *old(self),
    {
        1234
    }

    /// A method without a receiver; the answer is always 2345.
    pub fn b() -> (value: i32)
        ensures
            value == 2345,
    {
        2345
    }

    /// The getter that scripts see for `pro`. It does not read the field: the
    /// answer is always 1234.
    pub fn get_pro(&self) -> (value: i64)
        ensures
            value == 1234,
    {
        1234
    }

    /// The setter that scripts see for `pro`: stores `value` in the field and
    /// touches nothing else.
    pub fn set_pro(&mut self, value: i64)
        ensures
            *final(self) == (RustResource { pro: value, ..*old(self) }),
    {
        self.pro = value;
    }

    /// Hands back the handle that a script passed in. A script may pass null,
    /// which arrives as `None`; the caller has to rule that out.
    pub fn func<H>(this: Option<H>) -> (handle: H)
        requires
            this.is_some(),
        ensures
            Some(handle) == this,
    {
        this.unwrap()
    }
}

} // verus!
