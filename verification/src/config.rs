//! Endpoint configuration and the byte strings derived from it.
//!
//! A `MongoConfig` bundles the connection and identity parameters of one side
//! of a migration.  The library reads its fields as plain byte strings; the
//! embedding program converts its textual configuration into this form and
//! keeps the values fixed for the duration of a run.

use vstd::prelude::*;

verus! {

/// Connection and identity parameters for one side of a migration.
#[derive(Debug)]
pub struct MongoConfig {
    pub s3_bucket: Vec<u8>,
    pub region: Vec<u8>,
    pub host: Vec<u8>,
    pub username: Vec<u8>,
    pub password: Vec<u8>,
    pub db: Vec<u8>,
    pub collection: Vec<u8>,
    pub instance: Vec<u8>,
    pub tenant: Vec<u8>,
    pub trial: Vec<u8>,
    pub domain: Vec<u8>,
}

/// The bytes of `"https://"`.
pub open spec fn url_scheme() -> Seq<u8> {
    seq![104u8, 116u8, 116u8, 112u8, 115u8, 58u8, 47u8, 47u8]
}

/// The bytes of `"."`.
pub open spec fn dot() -> Seq<u8> {
    seq![46u8]
}

/// The bytes of `".com/api/v1/platform/form/trials/"`.
pub open spec fn url_path() -> Seq<u8> {
    seq![46u8, 99u8, 111u8, 109u8, 47u8, 97u8, 112u8, 105u8, 47u8, 118u8, 49u8, 47u8, 112u8, 108u8, 97u8, 116u8, 102u8, 111u8, 114u8, 109u8, 47u8, 102u8, 111u8, 114u8, 109u8, 47u8, 116u8, 114u8, 105u8, 97u8, 108u8, 115u8, 47u8]
}

/// The backlink URL of an endpoint:
/// `https://{tenant}.{instance}.{domain}.com/api/v1/platform/form/trials/{trial}`.
pub open spec fn url_of(cfg: MongoConfig) -> Seq<u8> {
    url_scheme() + cfg.tenant@ + dot() + cfg.instance@ + dot() + cfg.domain@ + url_path()
        + cfg.trial@
}

/// The bytes of `"s3://"`.
pub open spec fn s3_scheme() -> Seq<u8> {
    seq![115u8, 51u8, 58u8, 47u8, 47u8]
}

/// The bytes of `"/form-template/"`.
pub open spec fn s3_middle() -> Seq<u8> {
    seq![47u8, 102u8, 111u8, 114u8, 109u8, 45u8, 116u8, 101u8, 109u8, 112u8, 108u8, 97u8, 116u8, 101u8, 47u8]
}

/// The bytes of `"/"`.
pub open spec fn slash() -> Seq<u8> {
    seq![47u8]
}

/// The asset path of an endpoint: `s3://{bucket}/form-template/{trial}/`.
pub open spec fn s3_uri_of(cfg: MongoConfig) -> Seq<u8> {
    s3_scheme() + cfg.s3_bucket@ + s3_middle() + cfg.trial@ + slash()
}

/// Append `src` to `dst`, byte for byte.
pub(crate) fn append_bytes(dst: &mut Vec<u8>, src: &Vec<u8>)
    ensures
        final(dst)@ == old(dst)@ + src@,
{
    let mut i: usize = 0;
    let n = src.len();
    while i < n
        invariant
            i <= n,
            n == src@.len(),
            dst@ == old(dst)@ + src@.subrange(0, i as int),
        decreases n - i,
    {
        dst.push(src[i]);
        proof {
            assert(dst@ =~= old(dst)@ + src@.subrange(0, i as int + 1));
        }
        i += 1;
    }
    proof {
        assert(dst@ =~= old(dst)@ + src@);
    }
}

/// A fresh copy of a byte string.
pub(crate) fn copy_bytes(src: &Vec<u8>) -> (r: Vec<u8>)
    ensures
        r@ == src@,
{
    let mut v: Vec<u8> = Vec::new();
    append_bytes(&mut v, src);
    proof {
        assert(v@ =~= src@);
    }
    v
}

/// The backlink URL generated from an endpoint's configuration.
pub fn generate_url(cfg: &MongoConfig) -> (r: Vec<u8>)
    ensures
        r@ == url_of(*cfg),
{
    let mut v: Vec<u8> = vec![104u8, 116u8, 116u8, 112u8, 115u8, 58u8, 47u8, 47u8];
    proof {
        assert(v@ =~= url_scheme());
    }
    append_bytes(&mut v, &cfg.tenant);
    v.push(46u8);
    append_bytes(&mut v, &cfg.instance);
    v.push(46u8);
    append_bytes(&mut v, &cfg.domain);
    let path: Vec<u8> = vec![46u8, 99u8, 111u8, 109u8, 47u8, 97u8, 112u8, 105u8, 47u8, 118u8, 49u8, 47u8, 112u8, 108u8, 97u8, 116u8, 102u8, 111u8, 114u8, 109u8, 47u8, 102u8, 111u8, 114u8, 109u8, 47u8, 116u8, 114u8, 105u8, 97u8, 108u8, 115u8, 47u8];
    proof {
        assert(path@ =~= url_path());
    }
    append_bytes(&mut v, &path);
    append_bytes(&mut v, &cfg.trial);
    proof {
        assert(v@ =~= url_of(*cfg));
    }
    v
}

/// The asset path generated from an endpoint's configuration.
pub fn generate_s3_uri(cfg: &MongoConfig) -> (r: Vec<u8>)
    ensures
        r@ == s3_uri_of(*cfg),
{
    let mut v: Vec<u8> = vec![115u8, 51u8, 58u8, 47u8, 47u8];
    proof {
        assert(v@ =~= s3_scheme());
    }
    append_bytes(&mut v, &cfg.s3_bucket);
    let middle: Vec<u8> = vec![47u8, 102u8, 111u8, 114u8, 109u8, 45u8, 116u8, 101u8, 109u8, 112u8, 108u8, 97u8, 116u8, 101u8, 47u8];
    proof {
        assert(middle@ =~= s3_middle());
    }
    append_bytes(&mut v, &middle);
    append_bytes(&mut v, &cfg.trial);
    v.push(47u8);
    proof {
        assert(v@ =~= s3_uri_of(*cfg));
    }
    v
}

} // verus!
