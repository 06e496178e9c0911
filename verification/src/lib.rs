//! A trusted-text value for database queries.
//!
//! A `QueryString` holds text that the caller has cleared for execution as a
//! query. It can only be produced through the [`QuerySafeStr`] conversion
//! trait: compile-time-constant text (`&'static str`) converts directly,
//! while every other source must be wrapped in [`AssertQuerySafe`], an
//! explicit marker by which the caller vouches for the text's safety. An
//! execution layer that accepts only `QueryString` is thereby protected from
//! accidentally receiving dynamically assembled text.

use vstd::prelude::*;

verus! {

use std::collections::hash_map::DefaultHasher;
use std::hash::Hasher;
use std::sync::Arc;
use vstd::std_specs::cmp::PartialEqSpec;
use vstd::std_specs::hash::DefaultHasherAdditionalSpecFns;
use vstd::string::StringSliceAdditionalSpecFns;
use vstd::utf8::encode_utf8;
use vstd::utf8::encode_utf8_decode_utf8;

/// The storage strategy backing a [`QueryString`]'s payload.
///
/// The tag is a specification-level notion: it records which producer a value
/// came from and whether the payload is borrowed, permanent, exclusively
/// owned, or shared.
pub enum StorageMode {
    /// A borrow of text owned elsewhere, valid for a bounded lifetime.
    Borrowed,
    /// A reference to text that lives for the entire process.
    Static,
    /// A heap allocation owned solely by this value.
    Owned,
    /// A reference-counted allocation, safely shared across threads.
    Shared,
}

enum Repr<'a> {
    Slice(&'a str),
    Static(&'static str),
    Boxed(String),
    Arced(Arc<String>),
}

/// A query string that is ready to execute on a database connection.
///
/// The payload is immutable once constructed; equality is defined purely over
/// the payload, independent of the storage mode.
pub struct QueryString<'a> {
    repr: Repr<'a>,
}

impl<'a> View for QueryString<'a> {
    type V = Seq<char>;

    closed spec fn view(&self) -> Seq<char> {
        match self.repr {
            Repr::Slice(s) => s@,
            Repr::Static(s) => s@,
            Repr::Boxed(ref s) => s@,
            Repr::Arced(ref a) => a@,
        }
    }
}

/// The conversion gate through which every [`QueryString`] is produced.
///
/// `&'static str` is the only textual source that implements this trait
/// directly: text fixed in the program's source cannot carry external input.
/// Every other source must be wrapped in [`AssertQuerySafe`], so that the
/// caller explicitly accepts responsibility for the text's safety. A type
/// outside this closed set simply has no conversion and cannot reach an
/// execution layer that accepts only `QueryString` — the protection is a
/// compile-time gate, not a runtime check.
pub trait QuerySafeStr<'a>: Sized {
    /// The payload the conversion will carry over, unchanged.
    spec fn text(self) -> Seq<char>;

    /// The storage mode the conversion will produce.
    spec fn produced_mode(self) -> StorageMode;

    /// Wrap `self` as a [`QueryString`].
    fn into_query_string(self) -> (r: QueryString<'a>)
        ensures
            r@ == self.text(),
            r.storage_mode() == self.produced_mode(),
    ;
}

impl QuerySafeStr<'static> for &'static str {
    open spec fn text(self) -> Seq<char> {
        self@
    }

    open spec fn produced_mode(self) -> StorageMode {
        StorageMode::Static
    }

    fn into_query_string(self) -> QueryString<'static> {
        QueryString { repr: Repr::Static(self) }
    }
}

/// Assert that a query string is safe to execute on a database connection.
///
/// Wrapping text in this marker is the caller's explicit statement that the
/// content is free of injection hazards: if the string was constructed
/// dynamically, or from user input, the caller has sanitized it themselves.
/// The library trusts that assertion unconditionally and inspects nothing.
///
/// `&'static str` implements [`QuerySafeStr`] directly and needs no wrapper.
pub struct AssertQuerySafe<T>(pub T);

impl<'a> QuerySafeStr<'a> for AssertQuerySafe<&'a str> {
    open spec fn text(self) -> Seq<char> {
        self.0@
    }

    open spec fn produced_mode(self) -> StorageMode {
        StorageMode::Borrowed
    }

    fn into_query_string(self) -> QueryString<'a> {
        QueryString { repr: Repr::Slice(self.0) }
    }
}

impl QuerySafeStr<'static> for AssertQuerySafe<String> {
    open spec fn text(self) -> Seq<char> {
        self.0@
    }

    open spec fn produced_mode(self) -> StorageMode {
        StorageMode::Owned
    }

    fn into_query_string(self) -> QueryString<'static> {
        QueryString { repr: Repr::Boxed(self.0) }
    }
}

// Note: there is deliberately no conversion for `Rc<String>`: the resulting
// value must remain safe to share across threads, which only the atomically
// reference-counted form guarantees.
impl QuerySafeStr<'static> for AssertQuerySafe<Arc<String>> {
    open spec fn text(self) -> Seq<char> {
        self.0@
    }

    open spec fn produced_mode(self) -> StorageMode {
        StorageMode::Shared
    }

    fn into_query_string(self) -> QueryString<'static> {
        QueryString { repr: Repr::Arced(self.0) }
    }
}

impl<'a> QuerySafeStr<'a> for QueryString<'a> {
    open spec fn text(self) -> Seq<char> {
        self@
    }

    open spec fn produced_mode(self) -> StorageMode {
        self.storage_mode()
    }

    fn into_query_string(self) -> (r: QueryString<'a>)
        ensures
            r == self,
    {
        self
    }
}

impl<'a> QueryString<'a> {
    /// Which storage strategy currently backs this value.
    pub closed spec fn storage_mode(&self) -> StorageMode {
        match self.repr {
            Repr::Slice(_) => StorageMode::Borrowed,
            Repr::Static(_) => StorageMode::Static,
            Repr::Boxed(_) => StorageMode::Owned,
            Repr::Arced(_) => StorageMode::Shared,
        }
    }

    /// Erase the borrow in `self` by copying the string to a new allocation
    /// if necessary.
    ///
    /// Only copies the string if this was constructed from
    /// `AssertQuerySafe<&'a str>`: the borrowed payload moves into exclusively
    /// owned storage. In all other cases this is a no-op that keeps both the
    /// payload and the storage mode.
    pub fn into_static(self) -> (r: QueryString<'static>)
        ensures
            r@ == self@,
            self.storage_mode() is Borrowed ==> r.storage_mode() is Owned,
            !(self.storage_mode() is Borrowed) ==> r.storage_mode() == self.storage_mode(),
    {
        QueryString {
            repr: match self.repr {
                Repr::Slice(s) => Repr::Boxed(s.to_owned()),
                Repr::Static(s) => Repr::Static(s),
                Repr::Boxed(s) => Repr::Boxed(s),
                Repr::Arced(s) => Repr::Arced(s),
            },
        }
    }

    /// Borrow the inner query string.
    pub fn as_str(&self) -> (r: &str)
        ensures
            r@ == self@,
    {
        match &self.repr {
            Repr::Slice(s) => *s,
            Repr::Static(s) => *s,
            Repr::Boxed(s) => s.as_str(),
            Repr::Arced(a) => a.as_str(),
        }
    }
}

impl<'a> Clone for QueryString<'a> {
    /// Clone the value, preserving both the payload and the storage mode.
    fn clone(&self) -> (r: Self)
        ensures
            r@ == self@,
            r.storage_mode() == self.storage_mode(),
    {
        QueryString {
            repr: match &self.repr {
                Repr::Slice(s) => Repr::Slice(*s),
                Repr::Static(s) => Repr::Static(*s),
                Repr::Boxed(s) => Repr::Boxed(s.clone()),
                Repr::Arced(a) => Repr::Arced(a.clone()),
            },
        }
    }
}

/// Compare two string slices by content.
fn str_eq(a: &str, b: &str) -> (r: bool)
    ensures
        r == (a@ == b@),
{
    proof {
        encode_utf8_decode_utf8(a@);
        encode_utf8_decode_utf8(b@);
    }
    let ab = a.as_bytes();
    let bb = b.as_bytes();
    if ab.len() != bb.len() {
        return false;
    }
    let n = ab.len();
    let mut i: usize = 0;
    while i < n
        invariant
            n == ab@.len(),
            ab@.len() == bb@.len(),
            ab@ == a.spec_bytes(),
            bb@ == b.spec_bytes(),
            i <= n,
            forall|j: int| 0 <= j < i ==> ab@[j] == bb@[j],
        decreases n - i,
    {
        if ab[i] != bb[i] {
            return false;
        }
        i = i + 1;
    }
    proof {
        assert(ab@ =~= bb@);
    }
    true
}

impl<'a> PartialEq for QueryString<'a> {
    fn eq(&self, other: &QueryString<'a>) -> bool {
        str_eq(self.as_str(), other.as_str())
    }
}

impl<'a> vstd::std_specs::cmp::PartialEqSpecImpl for QueryString<'a> {
    open spec fn obeys_eq_spec() -> bool {
        true
    }

    open spec fn eq_spec(&self, other: &QueryString<'a>) -> bool {
        self@ == other@
    }
}

impl<'a> Eq for QueryString<'a> {}

/// The hash of a payload: a pure function of the text alone, so two values
/// with equal payloads hash identically whatever their storage modes.
pub open spec fn text_hash(t: Seq<char>) -> u64 {
    DefaultHasher::spec_finish(seq![encode_utf8(t)])
}

impl<'a> QueryString<'a> {
    /// Hash the payload, independently of the storage mode.
    pub fn hash_value(&self) -> (r: u64)
        ensures
            r == text_hash(self@),
    {
        let mut state = DefaultHasher::new();
        state.write(self.as_str().as_bytes());
        state.finish()
    }
}

/// Two values holding equal payloads are equal and hash identically, whatever
/// their storage modes.
pub proof fn lemma_equal_text_equal_values<'a>(a: QueryString<'a>, b: QueryString<'a>)
    requires
        a@ == b@,
    ensures
        a.eq_spec(&b),
        text_hash(a@) == text_hash(b@),
{
}

/// Equality of values is reflexive.
pub proof fn lemma_eq_reflexive<'a>(a: QueryString<'a>)
    ensures
        a.eq_spec(&a),
{
}

/// Equality of values is symmetric.
pub proof fn lemma_eq_symmetric<'a>(a: QueryString<'a>, b: QueryString<'a>)
    ensures
        a.eq_spec(&b) == b.eq_spec(&a),
{
}

/// Equality of values is transitive.
pub proof fn lemma_eq_transitive<'a>(a: QueryString<'a>, b: QueryString<'a>, c: QueryString<'a>)
    requires
        a.eq_spec(&b),
        b.eq_spec(&c),
    ensures
        a.eq_spec(&c),
{
}

} // verus!
