use bson::Document;
use form_migrate::config::MongoConfig;
use form_migrate::config::generate_s3_uri;
use form_migrate::config::generate_url;
use form_migrate::patch::insert_chars_eq;
use form_migrate::transform::TransformError;
use form_migrate::transform::apply_patches;
use form_migrate::transform::modify_doc;
use form_migrate::transform::transform_record;

fn config(tenant: &str, instance: &str, domain: &str, trial: &str) -> MongoConfig {
    MongoConfig {
        s3_bucket: b"bucket".to_vec(),
        region: b"region-1".to_vec(),
        host: b"host".to_vec(),
        username: b"user".to_vec(),
        password: b"pass".to_vec(),
        db: b"db".to_vec(),
        collection: b"coll".to_vec(),
        instance: instance.as_bytes().to_vec(),
        tenant: tenant.as_bytes().to_vec(),
        trial: trial.as_bytes().to_vec(),
        domain: domain.as_bytes().to_vec(),
    }
}

#[test]
fn doc_ser_de() {
    let mut v: Vec<u8> = Vec::new();
    let mut doc = Document::new();
    doc.insert("id", "hey");

    doc.to_writer(&mut v).unwrap();
    let id = "id".chars().map(|c| c as u8).collect::<Vec<_>>();
    let xy = "xy".chars().map(|c| c as u8).collect::<Vec<_>>();
    insert_chars_eq(&mut v, &id, &xy);
    let doc2 = Document::from_reader(std::io::Cursor::new(v)).unwrap();

    let mut expected = Document::new();
    expected.insert("xy", "hey");
    assert_eq!(expected, doc2);
}

#[test]
fn generate_url_exact() {
    let cfg = config("acme", "prod", "example", "tr001");
    let url = generate_url(&cfg);
    assert_eq!(
        url,
        b"https://acme.prod.example.com/api/v1/platform/form/trials/tr001".to_vec()
    );
}

#[test]
fn generate_s3_uri_exact() {
    let cfg = config("acme", "prod", "example", "tr001");
    let uri = generate_s3_uri(&cfg);
    assert_eq!(uri, b"s3://bucket/form-template/tr001/".to_vec());
}

#[test]
fn round_trip_transform() {
    // A minimal record with one field equal to the needle: transforming and
    // parsing back yields the same record with that field replaced.
    let from = config("acme", "prod", "example", "id");
    let to = config("acme", "prod", "example", "xy");

    let mut doc = Document::new();
    doc.insert("id", "hey");

    let out = modify_doc(&from, &to, &doc).unwrap();

    let mut expected = Document::new();
    expected.insert("xy", "hey");
    assert_eq!(expected, out);
}

#[test]
fn url_patch_is_applied_before_identifier_patch() {
    // The identifier is a substring of the URL; rewriting the identifier
    // first would mangle the URL needle, so the two orders must disagree.
    let from = config("aa", "bb", "cc", "qq");
    let to = config("zz", "yy", "xx", "ww");
    let from_url = generate_url(&from);
    let to_url = generate_url(&to);

    let mut buffer = from_url.clone();
    buffer.push(b'!');

    let mut library_order = buffer.clone();
    apply_patches(&from, &to, &mut library_order).unwrap();

    let mut wrong_order = buffer.clone();
    insert_chars_eq(&mut wrong_order, &from.trial, &to.trial);
    insert_chars_eq(&mut wrong_order, &from_url, &to_url);

    let mut expected = to_url.clone();
    expected.push(b'!');
    assert_eq!(library_order, expected);
    assert_ne!(library_order, wrong_order);
}

#[test]
fn length_mismatch_is_an_invariant_violation() {
    let from = config("acme", "prod", "example", "short");
    let to = config("acme", "prod", "example", "muchlonger");

    let mut buffer = b"anything".to_vec();
    let kept = buffer.clone();
    assert_eq!(
        apply_patches(&from, &to, &mut buffer),
        Err(TransformError::InvariantViolation)
    );
    assert_eq!(buffer, kept);

    assert!(matches!(
        transform_record(&from, &to, &kept),
        Err(TransformError::InvariantViolation)
    ));

    let mut doc = Document::new();
    doc.insert("id", "hey");
    assert_eq!(modify_doc(&from, &to, &doc), Err(TransformError::InvariantViolation));
}

#[test]
fn unparseable_patched_bytes_are_a_corrupt_transform() {
    // The identifier patch overwrites the element's type byte with an
    // unknown one, so the patched bytes no longer parse.
    let mut from = config("acme", "prod", "example", "aaa");
    let mut to = config("acme", "prod", "example", "bbb");
    from.trial = vec![2u8, b'a', b'b'];
    to.trial = vec![200u8, b'a', b'b'];

    let mut doc = Document::new();
    doc.insert("ab", "x");
    let mut bytes: Vec<u8> = Vec::new();
    doc.to_writer(&mut bytes).unwrap();

    assert!(matches!(
        transform_record(&from, &to, &bytes),
        Err(TransformError::CorruptTransform)
    ));
    assert_eq!(modify_doc(&from, &to, &doc), Err(TransformError::CorruptTransform));
}

#[test]
fn transform_record_returns_the_patched_bytes_and_their_document() {
    let from = config("acme", "prod", "example", "id");
    let to = config("acme", "prod", "example", "xy");

    let mut doc = Document::new();
    doc.insert("id", "hey");
    let mut bytes: Vec<u8> = Vec::new();
    doc.to_writer(&mut bytes).unwrap();

    let (patched, parsed) = transform_record(&from, &to, &bytes).unwrap();
    assert_eq!(patched.len(), bytes.len());
    assert_ne!(patched, bytes);

    let mut expected = Document::new();
    expected.insert("xy", "hey");
    assert_eq!(expected, parsed);

    let mut reserialized: Vec<u8> = Vec::new();
    parsed.to_writer(&mut reserialized).unwrap();
    assert_eq!(reserialized, patched);
}

#[test]
fn serializable_document_whose_bytes_do_not_reparse_is_corrupt() {
    // A top-level key that spells an extended-JSON marker serializes fine but
    // is rejected on the way back, so even a no-op transform must fail: the
    // codec's success conditions are genuinely distinct.
    let from = config("acme", "prod", "example", "t1");
    let to = config("acme", "prod", "example", "t2");

    let mut doc = Document::new();
    doc.insert("$oid", "ffffffffffffffffffffffff");
    let mut bytes: Vec<u8> = Vec::new();
    doc.to_writer(&mut bytes).unwrap();
    assert!(Document::from_reader(std::io::Cursor::new(bytes)).is_err());

    assert_eq!(modify_doc(&from, &to, &doc), Err(TransformError::CorruptTransform));
}
