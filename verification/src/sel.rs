//! Selectors: immutable text identifiers naming an operation.
//!
//! Equality of selectors is byte-for-byte text comparison. A selector's
//! retain-semantics category is a pure function of its text, computed by the
//! classifier in [`crate::family`] over the text's UTF-8 bytes.

use vstd::prelude::*;
use vstd::string::StringExecFns;
use vstd::utf8::encode_utf8;
use vstd::utf8::is_ascii_chars;
use vstd::utf8::is_ascii_chars_encode_utf8;

use crate::family::alloc_family;
use crate::family::in_family;
use crate::family::init_family;
use crate::family::is_mutable_copy_selector;
use crate::family::lemma_exact_match;
use crate::family::lemma_head_mismatch;
use crate::family::mutable_copy_family;
use crate::family::new_family;
use crate::family::retain_semantics;
use crate::family::spec_retain_semantics;
use crate::family::strip_leading_underscores;

verus! {

/// A selector. Its view is its text as a sequence of characters.
pub struct Sel {
    name: String,
}

impl View for Sel {
    type V = Seq<char>;

    closed spec fn view(&self) -> Seq<char> {
        self.name@
    }
}

impl Sel {
    /// The retain-semantics category of this selector's text: 1 for the `new`
    /// family, 2 for `alloc`, 3 for `init`, 4 for `copy` or `mutableCopy`,
    /// and 5 for every other selector.
    pub open spec fn spec_family(&self) -> u8 {
        spec_retain_semantics(encode_utf8(self@))
    }

    /// Interns a selector with the given text.
    pub fn register(name: &str) -> (s: Sel)
        ensures
            s@ == name@,
    {
        Sel { name: String::from_str(name) }
    }

    /// The selector's text.
    pub fn name(&self) -> (r: &str)
        ensures
            r@ == self@,
    {
        self.name.as_str()
    }

    /// The retain-semantics category of this selector.
    pub fn family(&self) -> (r: u8)
        ensures
            r == self.spec_family(),
            1 <= r <= 5,
    {
        retain_semantics(self.name.as_str())
    }

    /// Whether this selector is in the `mutableCopy` family in particular.
    pub fn is_mutable_copy(&self) -> (r: bool)
        ensures
            r == in_family(encode_utf8(self@), mutable_copy_family()),
    {
        is_mutable_copy_selector(self.name.as_str())
    }

    /// Whether this selector's text equals the given text.
    pub fn is_named(&self, text: &str) -> (r: bool)
        ensures
            r == (self@ == text@),
    {
        self.name == String::from_str(text)
    }
}

impl Clone for Sel {
    fn clone(&self) -> (r: Sel)
        ensures
            r@ == self@,
    {
        Sel { name: self.name.clone() }
    }
}

impl PartialEq for Sel {
    fn eq(&self, other: &Sel) -> (r: bool) {
        self.name == other.name
    }
}

impl vstd::std_specs::cmp::PartialEqSpecImpl for Sel {
    open spec fn obeys_eq_spec() -> bool {
        true
    }

    open spec fn eq_spec(&self, other: &Sel) -> bool {
        self@ == other@
    }
}

/// The common `alloc` selector.
pub fn alloc_sel() -> (s: Sel)
    ensures
        s@ == "alloc"@,
        s.spec_family() == 2,
{
    proof {
        reveal_strlit("alloc");
        assert(is_ascii_chars("alloc"@));
        is_ascii_chars_encode_utf8("alloc"@);
        let b = encode_utf8("alloc"@);
        assert(b =~= alloc_family());
        assert(strip_leading_underscores(b) == b);
        lemma_head_mismatch(b, new_family());
        lemma_exact_match(alloc_family());
    }
    Sel::register("alloc")
}

/// The common `init` selector.
pub fn init_sel() -> (s: Sel)
    ensures
        s@ == "init"@,
        s.spec_family() == 3,
{
    proof {
        reveal_strlit("init");
        assert(is_ascii_chars("init"@));
        is_ascii_chars_encode_utf8("init"@);
        let b = encode_utf8("init"@);
        assert(b =~= init_family());
        assert(strip_leading_underscores(b) == b);
        lemma_head_mismatch(b, new_family());
        lemma_head_mismatch(b, alloc_family());
        lemma_exact_match(init_family());
    }
    Sel::register("init")
}

/// The common `new` selector.
pub fn new_sel() -> (s: Sel)
    ensures
        s@ == "new"@,
        s.spec_family() == 1,
{
    proof {
        reveal_strlit("new");
        assert(is_ascii_chars("new"@));
        is_ascii_chars_encode_utf8("new"@);
        let b = encode_utf8("new"@);
        assert(b =~= new_family());
        lemma_exact_match(new_family());
    }
    Sel::register("new")
}

} // verus!
