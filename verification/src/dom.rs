//! The boundary to the HTML world: decoding response bytes, parsing them
//! into a document tree, and reading elements out of it.
//!
//! The document tree is kuchiki's; its values are opaque here. What the
//! library states and proves is how the strings read out of the tree are
//! parsed, cleaned and assembled — see the adapters.

use vstd::prelude::*;

use kuchiki::traits::TendrilSink;

use crate::error::Error;

verus! {

/// The two character encodings a target can declare for its pages.
#[derive(Clone, Copy, Debug, PartialEq, Eq, Structural)]
pub enum Encoding {
    Utf8,
    Latin1,
}

#[verifier::external_type_specification]
#[verifier::external_body]
pub struct ExNodeRef(kuchiki::NodeRef);

#[verifier::external_type_specification]
#[verifier::external_body]
#[verifier::reject_recursive_types(T)]
pub struct ExNodeDataRef<T>(kuchiki::NodeDataRef<T>);

#[verifier::external_type_specification]
#[verifier::external_body]
pub struct ExElementData(kuchiki::ElementData);

/// A handle on one element of a parsed document: a candidate node.
pub type ElementRef = kuchiki::NodeDataRef<kuchiki::ElementData>;

/// What encoding_rs's UTF-8 decode yields for a byte buffer: a function of
/// the bytes alone (malformed sequences become replacement characters, a
/// leading byte-order mark is honored).
pub uninterp spec fn utf8_decoded(bytes: Seq<u8>) -> Seq<char>;

/// What encoding_rs's windows-1252 decode yields for a byte buffer: a
/// function of the bytes alone.
pub uninterp spec fn latin1_decoded(bytes: Seq<u8>) -> Seq<char>;

/// Relies on encoding_rs's `UTF_8.decode`: decodes the whole buffer, with
/// BOM sniffing, replacing malformed sequences rather than failing; empty
/// input stays empty.
#[verifier::external_body]
fn decode_utf8(bytes: &Vec<u8>) -> (r: String)
    ensures
        r@ == utf8_decoded(bytes@),
        bytes@.len() == 0 ==> r@.len() == 0,
{
    let (text, _, _) = encoding_rs::UTF_8.decode(bytes);
    text.into_owned()
}

/// Relies on encoding_rs's `WINDOWS_1252.decode`: decodes the whole buffer —
/// the single-byte Western European codec, every byte mapped to one
/// character — with BOM sniffing; empty input stays empty.
#[verifier::external_body]
fn decode_latin1(bytes: &Vec<u8>) -> (r: String)
    ensures
        r@ == latin1_decoded(bytes@),
        bytes@.len() == 0 ==> r@.len() == 0,
{
    let (text, _, _) = encoding_rs::WINDOWS_1252.decode(bytes);
    text.into_owned()
}

/// What a response body reads as under a declared encoding.
pub open spec fn decoded(bytes: Seq<u8>, encoding: Encoding) -> Seq<char> {
    match encoding {
        Encoding::Utf8 => utf8_decoded(bytes),
        Encoding::Latin1 => latin1_decoded(bytes),
    }
}

/// Decodes a response body under the target's declared encoding. Decoding is
/// lossy, never failing: unmapped bytes become replacement characters.
pub fn decode_bytes(bytes: &Vec<u8>, encoding: &Encoding) -> (r: String)
    ensures
        r@ == decoded(bytes@, *encoding),
{
    match encoding {
        Encoding::Utf8 => decode_utf8(bytes),
        Encoding::Latin1 => decode_latin1(bytes),
    }
}

/// Relies on kuchiki's `parse_html` (html5ever): parses text into a document
/// tree. HTML parsing is total; malformed input still yields a tree.
#[verifier::external_body]
pub(crate) fn parse_document(text: &str) -> kuchiki::NodeRef {
    kuchiki::parse_html().one(text)
}

/// Relies on kuchiki's `NodeRef::select`: the document's inclusive
/// descendant elements matching the selector list, in tree order; fails
/// exactly when the selector text does not parse.
#[verifier::external_body]
pub(crate) fn select_nodes(doc: &kuchiki::NodeRef, selector: &str) -> (r: Result<Vec<ElementRef>, Error>)
    ensures
        match r {
            Ok(_) => true,
            Err(e) => e == Error::SelectorNotFound,
        },
{
    match doc.select(selector) {
        Ok(iter) => Ok(iter.collect()),
        Err(()) => Err(Error::SelectorNotFound),
    }
}

/// Relies on kuchiki's `select_first`: the first descendant element of the
/// node matching the selector list; fails when the selector text does not
/// parse or nothing matches.
#[verifier::external_body]
fn select_first_in(node: &ElementRef, selector: &str) -> (r: Result<ElementRef, Error>)
    ensures
        match r {
            Ok(_) => true,
            Err(e) => e == Error::SelectorNotFound,
        },
{
    match node.as_node().select_first(selector) {
        Ok(el) => Ok(el),
        Err(()) => Err(Error::SelectorNotFound),
    }
}

/// Relies on kuchiki's `text_contents`: the concatenation of all text nodes
/// in the element's subtree.
#[verifier::external_body]
fn text_contents_of(node: &ElementRef) -> String {
    node.text_contents()
}

/// Relies on kuchiki's `Attributes::get`: the value of the element's
/// attribute of that name, when the element has it.
#[verifier::external_body]
fn attr_of(node: &ElementRef, name: &str) -> Option<String> {
    node.attributes.borrow().get(name).map(|v| v.to_owned())
}

/// Selects the first descendant matching the selector and returns its
/// concatenated text content; fails with `SelectorNotFound` when nothing
/// matches.
pub fn get_text(node: &ElementRef, selector: &str) -> (r: Result<String, Error>)
    ensures
        r is Ok || r == Err::<String, Error>(Error::SelectorNotFound),
{
    match select_first_in(node, selector) {
        Ok(el) => Ok(text_contents_of(&el)),
        Err(e) => Err(e),
    }
}

/// Reads an attribute of the node — or, when a selector is given, of its
/// first matching descendant. Fails with `SelectorNotFound` when the
/// selector matches nothing and with `AttributeMissing` when the element
/// lacks the attribute.
pub fn get_attr(node: &ElementRef, selector: Option<&str>, name: &str) -> (r: Result<String, Error>)
    ensures
        r is Ok || r == Err::<String, Error>(Error::SelectorNotFound) || r == Err::<String, Error>(
            Error::AttributeMissing,
        ),
{
    match selector {
        Option::Some(sel) => match select_first_in(node, sel) {
            Ok(el) => match attr_of(&el, name) {
                Option::Some(v) => Ok(v),
                Option::None => Err(Error::AttributeMissing),
            },
            Err(e) => Err(e),
        },
        Option::None => match attr_of(node, name) {
            Option::Some(v) => Ok(v),
            Option::None => Err(Error::AttributeMissing),
        },
    }
}

} // verus!
