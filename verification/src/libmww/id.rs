//! Identifiers tagged with the type of what they identify.
use vstd::prelude::*;

use core::marker::PhantomData;

verus! {

/// The identifier of a `T`, held as its raw text.
#[derive(Debug)]
pub struct Id<T> {
    raw: String,
    marker: PhantomData<T>,
}

impl<T> View for Id<T> {
    type V = Seq<char>;

    closed spec fn view(&self) -> Seq<char> {
        self.raw@
    }
}

impl<T> Id<T> {
    pub fn new(raw_id: String) -> (r: Id<T>)
        ensures
            r@ == raw_id@,
    {
        Id { raw: raw_id, marker: PhantomData }
    }

    pub fn raw_id(&self) -> (r: &String)
        ensures
            r@ == self@,
    {
        &self.raw
    }

    /// The text of the identifier: its raw text.
    pub fn to_display_string(&self) -> (r: String)
        ensures
            r@ == self@,
    {
        self.raw.clone()
    }
}

/// Two identifiers are equal when their raw texts are.
impl<T> PartialEq for Id<T> {
    fn eq(&self, other: &Self) -> (r: bool) {
        self.raw == other.raw
    }
}

impl<T> vstd::std_specs::cmp::PartialEqSpecImpl for Id<T> {
    open spec fn obeys_eq_spec() -> bool {
        true
    }

    open spec fn eq_spec(&self, other: &Self) -> bool {
        self@ == other@
    }
}

impl<T> Eq for Id<T> {

}

/// An identifier hashes as its raw text, as equality compares it.
impl<T> core::hash::Hash for Id<T> {
    fn hash<H: core::hash::Hasher>(&self, state: &mut H) {
        hash_text(&self.raw, state);
    }
}

/// Calls `Hash::hash` of `String`, which feeds the text into the hasher.
/// Nothing is stated of the hasher's state afterwards.
#[verifier::external_body]
fn hash_text<H: core::hash::Hasher>(text: &String, state: &mut H) {
    core::hash::Hash::hash(text, state)
}

impl<T> Clone for Id<T> {
    fn clone(&self) -> (r: Id<T>)
        ensures
            r@ == self@,
    {
        Id { raw: self.raw.clone(), marker: PhantomData }
    }
}

} // verus!
