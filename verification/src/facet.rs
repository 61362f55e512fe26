//! Hierarchical facet paths, held as unvalidated text.

use std::borrow::Cow;
use vstd::prelude::*;
use vstd::std_specs::convert::FromSpecImpl;
use vstd::string::StringExecFns;

use crate::bindings::{facet_from_text, tantivy_facet_of, tantivy_path_of};

verus! {

/// True when `text` follows the path grammar of a facet: it is not empty
/// and starts with the separator `/`.
pub open spec fn is_facet_path(text: Seq<char>) -> bool {
    text.len() > 0 && text[0] == '/'
}

/// The error of a facet whose text breaks the path grammar.
#[derive(Debug, PartialEq, Eq)]
pub struct FacetParseError {
    /// The text that was rejected.
    pub text: String,
}

impl FacetParseError {
    /// What `message` returns.
    pub open spec fn spec_message(&self) -> Seq<char> {
        "Failed to parse the facet string: '"@ + self.text@ + "'"@
    }

    /// The error as a sentence for the user.
    pub fn message(&self) -> (r: String)
        ensures
            r@ == self.spec_message(),
    {
        String::from_str("Failed to parse the facet string: '").concat(self.text.as_str()).concat(
            "'",
        )
    }
}

/// A facet value, such as `/electronics/phones`.
///
/// This is a marker that some text is meant as a hierarchical path. Making
/// one never fails and checks nothing: the text may break the path grammar.
/// The view of a `Facet` is its text.
#[derive(Debug, PartialEq)]
pub struct Facet<'a>(pub(crate) Cow<'a, str>);

impl<'a> Clone for Facet<'a> {
    /// Borrowed text stays borrowed; owned text is copied.
    fn clone(&self) -> (r: Self)
        ensures
            r == *self,
            r.spec_cow() == self.spec_cow(),
            r@ == self@,
    {
        match &self.0 {
            Cow::Borrowed(text) => Facet(Cow::Borrowed(*text)),
            Cow::Owned(text) => Facet(Cow::Owned(text.clone())),
        }
    }
}

impl<'a> View for Facet<'a> {
    type V = Seq<char>;

    open spec fn view(&self) -> Seq<char> {
        self.spec_cow()@
    }
}

impl<'a> Facet<'a> {
    /// The text as the facet holds it: borrowed from the input, or owned.
    pub closed spec fn spec_cow(self) -> Cow<'a, str> {
        self.0
    }

    /// Two facets that hold the same text in the same way are the same
    /// facet.
    pub proof fn lemma_cow_determines(a: Facet<'a>, b: Facet<'a>)
        requires
            a.spec_cow() == b.spec_cow(),
        ensures
            a == b,
    {
    }

    /// Consumes the facet and returns the text it holds, as it holds it:
    /// borrowed text comes back borrowed, without a copy.
    #[inline]
    pub fn into_cow(self) -> (r: Cow<'a, str>)
        ensures
            r == self.spec_cow(),
            r@ == self@,
    {
        self.0
    }

    /// Parses the text into the facet that the index stores.
    ///
    /// Fails exactly when the text breaks the path grammar; the error then
    /// holds the text.
    #[inline]
    pub fn to_tantivy_facet(&self) -> (r: Result<tantivy::schema::Facet, FacetParseError>)
        ensures
            r is Ok <==> is_facet_path(self@),
            r matches Ok(parsed) ==> parsed == tantivy_facet_of(self@),
            r matches Err(error) ==> error.text@ == self@,
    {
        match facet_from_text(self.as_str()) {
            Ok(parsed) => Ok(parsed),
            Err(text) => Err(FacetParseError { text }),
        }
    }

    /// Returns the facet as a string.
    #[inline]
    pub fn as_str(&self) -> (r: &str)
        ensures
            r@ == self@,
    {
        match &self.0 {
            Cow::Borrowed(text) => text,
            Cow::Owned(text) => text.as_str(),
        }
    }

    /// The text of the facet, as it is shown to users.
    pub fn to_string(&self) -> (r: String)
        ensures
            r@ == self@,
    {
        String::from_str(self.as_str())
    }
}

impl<'a> From<Cow<'a, str>> for Facet<'a> {
    fn from(value: Cow<'a, str>) -> (r: Self)
        ensures
            r.spec_cow() == value,
            r@ == value@,
    {
        Self(value)
    }
}

impl<'a> FromSpecImpl<Cow<'a, str>> for Facet<'a> {
    open spec fn obeys_from_spec() -> bool {
        true
    }

    closed spec fn from_spec(value: Cow<'a, str>) -> Self {
        Facet(value)
    }
}

impl<'a> From<&'a str> for Facet<'a> {
    fn from(value: &'a str) -> (r: Self)
        ensures
            r.spec_cow() == Cow::<'a, str>::Borrowed(value),
            r@ == value@,
    {
        Self(Cow::Borrowed(value))
    }
}

impl<'a> FromSpecImpl<&'a str> for Facet<'a> {
    open spec fn obeys_from_spec() -> bool {
        true
    }

    closed spec fn from_spec(value: &'a str) -> Self {
        Facet(Cow::Borrowed(value))
    }
}

impl<'a> From<String> for Facet<'a> {
    fn from(value: String) -> (r: Self)
        ensures
            r.spec_cow() == Cow::<'a, str>::Owned(value),
            r@ == value@,
    {
        Self(Cow::Owned(value))
    }
}

impl<'a> FromSpecImpl<String> for Facet<'a> {
    open spec fn obeys_from_spec() -> bool {
        true
    }

    closed spec fn from_spec(value: String) -> Self {
        Facet(Cow::Owned(value))
    }
}

impl<'a> From<tantivy::schema::Facet> for Facet<'a> {
    /// The facet whose text is the path that the parsed facet renders.
    fn from(value: tantivy::schema::Facet) -> (r: Self)
        ensures
            r@ == tantivy_path_of(value),
            r.spec_cow() is Owned,
    {
        Self(Cow::Owned(value.to_path_string()))
    }
}

impl<'a> FromSpecImpl<tantivy::schema::Facet> for Facet<'a> {
    open spec fn obeys_from_spec() -> bool {
        false
    }

    closed spec fn from_spec(value: tantivy::schema::Facet) -> Self {
        arbitrary()
    }
}

} // verus!
