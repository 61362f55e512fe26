//! Thin markers around text and bytes, which tell a conversion what its
//! argument is meant as.

use std::borrow::Cow;
use vstd::prelude::*;

verus! {

/// Text, borrowed or owned.
#[derive(Debug, PartialEq, Eq)]
pub struct Text<'a>(pub Cow<'a, str>);

/// A blob of bytes.
#[derive(Debug, PartialEq, Eq)]
pub struct Bytes(pub Vec<u8>);

impl<'a> View for Text<'a> {
    type V = Seq<char>;

    open spec fn view(&self) -> Seq<char> {
        self.0@
    }
}

impl View for Bytes {
    type V = Seq<u8>;

    open spec fn view(&self) -> Seq<u8> {
        self.0@
    }
}

} // verus!
