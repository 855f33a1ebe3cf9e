//! Identifiers that are derived from a project's root directory.

use crate::text::{digit_str, hex_digit};
use sha3::{Digest, Sha3_256};
use vstd::prelude::*;
use vstd::utf8::encode_utf8;

verus! {

/// The SHA3-256 digest of `message`, as the `sha3` crate computes it.
pub uninterp spec fn sha3_256(message: Seq<u8>) -> Seq<u8>;

/// Calls `Sha3_256::digest` of the `sha3` crate on `message` and hands back the bytes
/// of the digest. The contract names the digest and states its length, 32 bytes, the
/// output size that the crate declares for SHA3-256.
#[verifier::external_body]
fn sha3_256_digest(message: &[u8]) -> (digest: Vec<u8>)
    ensures
        digest@ == sha3_256(message@),
        digest@.len() == 32,
{
    Sha3_256::digest(message).to_vec()
}

/// Two lower-case hexadecimal digits for each byte, the high half first.
pub open spec fn hex(bytes: Seq<u8>) -> Seq<char>
    decreases bytes.len(),
{
    if bytes.len() == 0 {
        Seq::empty()
    } else {
        hex(bytes.drop_last()).push(hex_digit(bytes.last() as int / 16)).push(
            hex_digit(bytes.last() as int % 16),
        )
    }
}

/// The hexadecimal SHA3-256 digest of the UTF-8 bytes of `text`.
pub open spec fn sha3_text(text: Seq<char>) -> Seq<char> {
    hex(sha3_256(encode_utf8(text)))
}

/// The identifier of the project at `root_dir`: the first eight digits of its digest.
pub open spec fn project_id_text(root_dir: Seq<char>) -> Seq<char> {
    sha3_text(root_dir).take(8)
}

/// The window class of the editor that belongs to the project at `root_dir`.
pub open spec fn classname_text(root_dir: Seq<char>) -> Seq<char> {
    "com.defold.nvim."@ + project_id_text(root_dir)
}

/// Hexadecimal text has two digits for each byte.
pub proof fn lemma_hex_len(bytes: Seq<u8>)
    ensures
        hex(bytes).len() == 2 * bytes.len(),
    decreases bytes.len(),
{
    if bytes.len() > 0 {
        lemma_hex_len(bytes.drop_last());
    }
}

/// The bytes in lower-case hexadecimal.
pub fn hex_string(bytes: &Vec<u8>) -> (r: String)
    ensures
        r@ == hex(bytes@),
{
    let mut out: String = String::new();
    let mut i: usize = 0;
    assert(bytes@.take(0) == Seq::<u8>::empty());
    while i < bytes.len()
        invariant
            i <= bytes@.len(),
            out@ == hex(bytes@.take(i as int)),
        decreases bytes@.len() - i,
    {
        let b: u8 = bytes[i];
        assert(bytes@.take(i as int + 1).drop_last() == bytes@.take(i as int));
        assert(bytes@.take(i as int + 1).last() == b);
        let ghost before = out@;
        out.append(digit_str(b / 16));
        out.append(digit_str(b % 16));
        assert(out@ == before.push(hex_digit(b as int / 16)).push(hex_digit(b as int % 16)));
        i = i + 1;
    }
    assert(bytes@.take(bytes@.len() as int) == bytes@);
    out
}

/// Why an identifier could not be derived.
#[derive(Debug, Clone, Copy, PartialEq, Eq, Structural)]
pub enum IdError {
    /// The digest has fewer than eight digits.
    ShortDigest,
}

/// The SHA3-256 digest of `str`, in lower-case hexadecimal.
pub fn sha3(str: &str) -> (r: String)
    ensures
        r@ == sha3_text(str@),
        r@.len() == 64,
{
    let digest: Vec<u8> = sha3_256_digest(str.as_bytes());
    proof {
        lemma_hex_len(digest@);
    }
    hex_string(&digest)
}

/// The identifier of the project at `root_dir`: the first eight digits of the digest
/// of the path. A digest has sixty-four digits, so there always is one.
pub fn project_id(root_dir: &str) -> (r: Result<String, IdError>)
    ensures
        r matches Ok(id) && id@ == project_id_text(root_dir@),
{
    let digest: String = sha3(root_dir);
    if digest.as_str().unicode_len() < 8 {
        return Err(IdError::ShortDigest);
    }
    assert(digest@.subrange(0, 8) == digest@.take(8));
    Ok(digest.as_str().substring_char(0, 8).to_owned())
}

/// The window class of the editor that belongs to the project at `root_dir`. There
/// always is one.
pub fn classname(root_dir: &str) -> (r: Result<String, IdError>)
    ensures
        r matches Ok(name) && name@ == classname_text(root_dir@),
{
    match project_id(root_dir) {
        Ok(id) => {
            let mut name: String = "com.defold.nvim.".to_owned();
            name.append(id.as_str());
            Ok(name)
        },
        Err(e) => Err(e),
    }
}

} // verus!
