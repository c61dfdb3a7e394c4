//! The record transformer.
//!
//! A record is transformed by two ordered byte patches: the backlink URL of
//! the source endpoint is rewritten to the destination's first, and the trial
//! identifier second.  The order matters: the identifier may occur inside the
//! URL, and rewriting the URL first keeps the identifier patch from mangling
//! it.  Both patches are fixed-width; a needle whose replacement has another
//! length is rejected before any byte is scanned.  After patching, the bytes
//! are re-validated as a well-formed BSON document; bytes that no longer
//! parse abort that record's transform.

use vstd::prelude::*;
use bson::Document;
use crate::codec::bson_parses;
use crate::codec::doc_bytes;
use crate::codec::doc_from_bytes;
use crate::codec::doc_serializes;
use crate::codec::doc_to_bytes;
use crate::codec::reserialization_of;
use crate::config::MongoConfig;
use crate::config::append_bytes;
use crate::config::generate_url;
use crate::config::url_of;
use crate::patch::insert_chars_eq;
use crate::patch::lemma_patch_preserves_len;
use crate::patch::patch_seq;

verus! {

/// Why a record's transform was aborted.
#[derive(Clone, Copy, Debug, PartialEq, Eq, Structural)]
pub enum TransformError {
    /// A patch's needle and replacement differ in byte length.
    InvariantViolation,
    /// The record's bytes could not be serialized, or the patched bytes no
    /// longer parse as a well-formed document.
    CorruptTransform,
}

/// Both per-run patches replace a needle with a same-length replacement.
pub open spec fn patches_len_ok(from: MongoConfig, to: MongoConfig) -> bool {
    &&& url_of(from).len() == url_of(to).len()
    &&& from.trial@.len() == to.trial@.len()
}

/// The byte-level transform of one record: the URL patch applied first, the
/// identifier patch applied second.
pub open spec fn record_transform(from: MongoConfig, to: MongoConfig, rec: Seq<u8>) -> Seq<u8> {
    patch_seq(patch_seq(rec, url_of(from), url_of(to)), from.trial@, to.trial@)
}

/// The transform never changes a record's byte length.
pub proof fn lemma_transform_preserves_len(from: MongoConfig, to: MongoConfig, rec: Seq<u8>)
    ensures
        record_transform(from, to, rec).len() == rec.len(),
{
    lemma_patch_preserves_len(rec, url_of(from), url_of(to));
    lemma_patch_preserves_len(patch_seq(rec, url_of(from), url_of(to)), from.trial@, to.trial@);
}

/// Whether the two per-run patches are fixed-width, decided at run time.
pub fn check_patch_lengths(from: &MongoConfig, to: &MongoConfig) -> (r: bool)
    ensures
        r == patches_len_ok(*from, *to),
{
    let from_url = generate_url(from);
    let to_url = generate_url(to);
    from_url.len() == to_url.len() && from.trial.len() == to.trial.len()
}

/// Apply the two per-run patches to a record's bytes, in place and in order:
/// the URL patch, then the identifier patch.  A length mismatch between a
/// needle and its replacement is rejected before any byte is scanned, leaving
/// the record untouched.
pub fn apply_patches(from: &MongoConfig, to: &MongoConfig, record: &mut Vec<u8>) -> (r: Result<
    (),
    TransformError,
>)
    ensures
        match r {
            Ok(()) => patches_len_ok(*from, *to) && final(record)@ == record_transform(
                *from,
                *to,
                old(record)@,
            ),
            Err(e) => {
                &&& e == TransformError::InvariantViolation
                &&& !patches_len_ok(*from, *to)
                &&& final(record)@ == old(record)@
            },
        },
        final(record)@.len() == old(record)@.len(),
{
    let from_url = generate_url(from);
    let to_url = generate_url(to);
    if from_url.len() != to_url.len() || from.trial.len() != to.trial.len() {
        return Err(TransformError::InvariantViolation);
    }
    insert_chars_eq(record, &from_url, &to_url);
    insert_chars_eq(record, &from.trial, &to.trial);
    proof {
        lemma_transform_preserves_len(*from, *to, old(record)@);
    }
    Ok(())
}

/// Transform one raw record: apply the patches to a copy of its bytes, then
/// re-validate the result as a BSON document.  On success the transformed
/// bytes are returned together with the document they parse to.
pub fn transform_record(from: &MongoConfig, to: &MongoConfig, record: &Vec<u8>) -> (r: Result<
    (Vec<u8>, Document),
    TransformError,
>)
    ensures
        match r {
            Ok(p) => {
                &&& patches_len_ok(*from, *to)
                &&& p.0@ == record_transform(*from, *to, record@)
                &&& p.0@.len() == record@.len()
                &&& bson_parses(p.0@)
                &&& doc_bytes(p.1) == reserialization_of(
                    record_transform(*from, *to, record@),
                )
            },
            Err(TransformError::InvariantViolation) => !patches_len_ok(*from, *to),
            Err(TransformError::CorruptTransform) => {
                &&& patches_len_ok(*from, *to)
                &&& !bson_parses(record_transform(*from, *to, record@))
            },
        },
{
    let mut bytes: Vec<u8> = Vec::new();
    append_bytes(&mut bytes, record);
    match apply_patches(from, to, &mut bytes) {
        Err(e) => Err(e),
        Ok(()) => match doc_from_bytes(&bytes) {
            Ok(d) => Ok((bytes, d)),
            Err(_) => Err(TransformError::CorruptTransform),
        },
    }
}

/// Transform one document as the store holds it: serialize it, patch the
/// bytes, and parse them back.  It succeeds exactly when the patches are
/// fixed-width, the document serializes, and the patched bytes parse back;
/// the returned document is the one those patched bytes parse to.  Exactly
/// the length-mismatch inputs are rejected as `InvariantViolation`; a record
/// whose bytes cannot be produced or no longer parse is rejected as
/// `CorruptTransform`.
pub fn modify_doc(from: &MongoConfig, to: &MongoConfig, doc: &Document) -> (r: Result<
    Document,
    TransformError,
>)
    ensures
        r is Ok <==> patches_len_ok(*from, *to) && doc_serializes(*doc) && bson_parses(
            record_transform(*from, *to, doc_bytes(*doc)),
        ),
        r == Err::<Document, TransformError>(TransformError::InvariantViolation)
            <==> !patches_len_ok(*from, *to),
        r matches Ok(d) ==> doc_bytes(d) == reserialization_of(
            record_transform(*from, *to, doc_bytes(*doc)),
        ),
{
    if !check_patch_lengths(from, to) {
        return Err(TransformError::InvariantViolation);
    }
    match doc_to_bytes(doc) {
        Err(_) => Err(TransformError::CorruptTransform),
        Ok(bytes) => match transform_record(from, to, &bytes) {
            Ok((_, d)) => Ok(d),
            Err(_) => Err(TransformError::CorruptTransform),
        },
    }
}

} // verus!
