//! Trusted boundary around the BSON codec.
//!
//! Records travel through the library as raw serialized bytes; only the
//! encoding and decoding of a `bson::Document` is delegated to the `bson`
//! crate, behind the two wrappers below.  The serialized form of a document,
//! the encoder's and the parser's acceptance, and the re-serialization of a
//! parsed byte string are named, not written out: nothing in this crate
//! restates the BSON grammar.

use vstd::prelude::*;
use bson::Document;

verus! {

#[verifier::external_type_specification]
#[verifier::external_body]
pub struct ExDocument(Document);

#[verifier::external_type_specification]
#[verifier::external_body]
pub struct ExSerError(bson::ser::Error);

#[verifier::external_type_specification]
#[verifier::external_body]
pub struct ExDeError(bson::de::Error);

/// The BSON serialization of a document: the exact bytes that
/// `Document::to_writer` emits for it.
pub uninterp spec fn doc_bytes(d: Document) -> Seq<u8>;

/// Whether `Document::to_writer` succeeds on a document.  With an in-memory
/// buffer as the writer, failure depends on the document alone.
pub uninterp spec fn doc_serializes(d: Document) -> bool;

/// Whether `Document::from_reader` accepts a byte string as a well-formed
/// BSON document.
pub uninterp spec fn bson_parses(b: Seq<u8>) -> bool;

/// The serialization of the document that `Document::from_reader` reads from
/// a byte string: the bytes `to_writer` emits for `from_reader`'s result, a
/// function of the input bytes alone.  It is deliberately not equated with
/// the input: the parser also accepts byte strings whose document
/// re-serializes differently.
pub uninterp spec fn reserialization_of(b: Seq<u8>) -> Seq<u8>;

/// Relies on `bson::Document::to_writer` writing into a fresh in-memory
/// buffer: whether it succeeds is a function of the document alone, and on
/// success the buffer holds exactly the document's BSON serialization.
/// Nothing is claimed about those bytes parsing back: the parser rejects some
/// serializable documents (for one, a document whose top-level key spells an
/// extended-JSON marker such as `$oid`).
#[verifier::external_body]
pub fn doc_to_bytes(d: &Document) -> (r: Result<Vec<u8>, bson::ser::Error>)
    ensures
        r is Ok <==> doc_serializes(*d),
        r matches Ok(v) ==> v@ == doc_bytes(*d),
{
    let mut v: Vec<u8> = Vec::new();
    match d.to_writer(&mut v) {
        Ok(()) => Ok(v),
        Err(e) => Err(e),
    }
}

/// Relies on `bson::Document::from_reader`: it reads the leading
/// length-prefixed document from the bytes and succeeds exactly when they
/// form a well-formed BSON document, a function of the bytes alone; the
/// document it returns is the one whose serialization is named
/// `reserialization_of` the input.
#[verifier::external_body]
pub fn doc_from_bytes(b: &Vec<u8>) -> (r: Result<Document, bson::de::Error>)
    ensures
        r is Ok <==> bson_parses(b@),
        r matches Ok(d) ==> doc_bytes(d) == reserialization_of(b@),
{
    Document::from_reader(b.as_slice())
}

} // verus!
