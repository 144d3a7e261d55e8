use vstd::prelude::*;
use vstd::string::StringSliceAdditionalSpecFns;

verus! {

/// The SHA-256 digest of a byte sequence, as ring computes it.
pub uninterp spec fn sha256(data: Seq<u8>) -> Seq<u8>;

/// Calls `ring::digest::digest` with `ring::digest::SHA256`. Claimed: the
/// digest is a function of the input bytes alone, and it is 32 bytes long
/// (SHA-256's output length in ring). What those bytes are is not stated.
#[verifier::external_body]
fn sha256_digest(data: &[u8]) -> (res: Vec<u8>)
    ensures
        res@ == sha256(data@),
        res@.len() == 32,
{
    ring::digest::digest(&ring::digest::SHA256, data).as_ref().to_vec()
}

/// The stored form of a password: the digest of its UTF-8 bytes followed by
/// the salt's bytes.
pub open spec fn spec_hash(src: Seq<u8>, salt: Seq<u8>) -> Seq<u8> {
    sha256(src + salt)
}

/// Whether two byte strings agree on every position that both have.
pub open spec fn agree_on_common_prefix(a: Seq<u8>, b: Seq<u8>) -> bool {
    forall|i: int| 0 <= i < a.len() && i < b.len() ==> a[i] == b[i]
}

/// The bytes of `a` followed by the bytes of `b`.
fn concat_bytes(a: &[u8], b: &[u8]) -> (res: Vec<u8>)
    ensures
        res@ == a@ + b@,
{
    let mut res: Vec<u8> = Vec::new();
    let mut i: usize = 0;
    while i < a.len()
        invariant
            i <= a@.len(),
            res@ == a@.subrange(0, i as int),
        decreases a@.len() - i,
    {
        res.push(a[i]);
        i = i + 1;
    }
    let mut j: usize = 0;
    while j < b.len()
        invariant
            j <= b@.len(),
            res@ == a@ + b@.subrange(0, j as int),
        decreases b@.len() - j,
    {
        res.push(b[j]);
        j = j + 1;
    }
    assert(a@.subrange(0, a@.len() as int) == a@);
    assert(b@.subrange(0, b@.len() as int) == b@);
    res
}

/// Hashes a password with the server's salt.
pub fn hash(src: &str, salt: &str) -> (res: Vec<u8>)
    ensures
        res@ == spec_hash(src.spec_bytes(), salt.spec_bytes()),
        res@.len() == 32,
{
    let data = concat_bytes(src.as_bytes(), salt.as_bytes());
    sha256_digest(data.as_slice())
}

/// Checks a password against a stored hash. The two are compared on the
/// positions that both have, so a stored value shorter than a digest only
/// has its own bytes checked.
pub fn hash_eq(src: &str, salt: &str, tar: &Vec<u8>) -> (res: bool)
    ensures
        res == agree_on_common_prefix(spec_hash(src.spec_bytes(), salt.spec_bytes()), tar@),
{
    let hashed = hash(src, salt);
    let mut result = true;
    let mut i: usize = 0;
    while i < hashed.len() && i < tar.len()
        invariant
            i <= hashed@.len(),
            hashed@ == spec_hash(src.spec_bytes(), salt.spec_bytes()),
            result == (forall|k: int| 0 <= k < i && k < tar@.len() ==> hashed@[k] == tar@[k]),
        decreases hashed@.len() - i,
    {
        if hashed[i] != tar[i] {
            result = false;
        }
        i = i + 1;
    }
    result
}

/// A password is accepted against the value that hashing it stored.
pub proof fn lemma_hash_then_check(src: Seq<u8>, salt: Seq<u8>)
    ensures
        agree_on_common_prefix(spec_hash(src, salt), spec_hash(src, salt)),
{
}

} // verus!
