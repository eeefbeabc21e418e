//! The name under which the virtual devices are registered, and the
//! environment handed to `adb`.
use vstd::prelude::*;
use sha2::Digest;
use vstd::string::StringSliceAdditionalSpecFns;
use crate::text::{hex_byte, hex_char, hex_of, hex_string};

verus! {

broadcast use vstd::string::group_string_axioms;

/// The SHA-256 digest of a byte string.
pub uninterp spec fn sha256(data: Seq<u8>) -> Seq<u8>;

/// Calls `sha2::Sha256::digest` on `data`. The contract claims that the result
/// is the SHA-256 digest of `data` (named, not spelled out) and that it is 32
/// bytes long, the output size `U32` that `Sha256` declares.
#[verifier::external_body]
fn sha256_digest(data: &[u8]) -> (out: Vec<u8>)
    ensures
        out@ == sha256(data@),
        out@.len() == 32,
{
    sha2::Sha256::digest(data).to_vec()
}

/// "android-" followed by the first seven hex digits of `digest`.
pub open spec fn name_from_digest_spec(digest: Seq<u8>) -> Seq<char> {
    "android-"@ + hex_string(digest).take(7)
}

/// The bytes that are hashed for a device: its serial, or nothing.
pub open spec fn serial_bytes(serial: Option<&str>) -> Seq<u8> {
    match serial {
        Some(s) => s.spec_bytes(),
        None => Seq::<u8>::empty(),
    }
}

/// The device name: the override when there is one, else derived from the
/// SHA-256 digest of the serial.
pub open spec fn audiosource_name(serial: Option<&str>, env_name: Option<Seq<char>>) -> Seq<char> {
    match env_name {
        Some(n) => n,
        None => name_from_digest_spec(sha256(serial_bytes(serial))),
    }
}

pub proof fn lemma_hex_len(bytes: Seq<u8>)
    ensures
        hex_string(bytes).len() == 2 * bytes.len(),
    decreases bytes.len(),
{
    if bytes.len() > 0 {
        lemma_hex_len(bytes.drop_last());
    }
}

pub open spec fn is_lower_hex(c: char) -> bool {
    ('0' <= c && c <= '9') || ('a' <= c && c <= 'f')
}

pub proof fn lemma_hex_chars(bytes: Seq<u8>)
    ensures
        forall|i: int| 0 <= i < hex_string(bytes).len() ==> is_lower_hex(#[trigger] hex_string(bytes)[i]),
    decreases bytes.len(),
{
    if bytes.len() > 0 {
        lemma_hex_chars(bytes.drop_last());
        let h = hex_string(bytes.drop_last());
        let b = bytes.last();
        assert(hex_char((b / 16) as nat) == hex_byte(b)[0]);
        assert forall|i: int| 0 <= i < hex_string(bytes).len() implies is_lower_hex(#[trigger] hex_string(bytes)[i]) by {
            if i >= h.len() {
                let v = if i == h.len() { (b / 16) as nat } else { (b % 16) as nat };
                assert(hex_string(bytes)[i] == hex_char(v));
            } else {
                assert(hex_string(bytes)[i] == h[i]);
            }
        }
    }
}

/// A derived name is "android-" followed by exactly seven lower-case hex digits.
pub proof fn lemma_name_shape(digest: Seq<u8>)
    requires
        digest.len() >= 4,
    ensures
        name_from_digest_spec(digest).len() == 15,
        name_from_digest_spec(digest).take(8) == "android-"@,
        forall|i: int| 8 <= i < 15 ==> is_lower_hex(#[trigger] name_from_digest_spec(digest)[i]),
{
    reveal_strlit("android-");
    lemma_hex_len(digest);
    lemma_hex_chars(digest);
    let n = name_from_digest_spec(digest);
    assert(n.take(8) =~= "android-"@);
    assert forall|i: int| 8 <= i < 15 implies is_lower_hex(#[trigger] n[i]) by {
        assert(n[i] == hex_string(digest)[i - 8]);
    }
}

/// Builds the name from a digest: "android-" and its first seven hex digits.
pub fn name_from_digest(digest: &[u8]) -> (out: String)
    requires
        digest@.len() >= 4,
    ensures
        out@ == name_from_digest_spec(digest@),
{
    let hex = hex_of(digest);
    proof {
        lemma_hex_len(digest@);
    }
    let mut out = "android-".to_string();
    let mut i: usize = 0;
    while i < 7
        invariant
            i <= 7,
            hex@.len() >= 8,
            hex@ == hex_string(digest@),
            out@ == "android-"@ + hex@.take(i as int),
        decreases 7 - i,
    {
        out.push(hex[i]);
        assert(hex@.take(i + 1) =~= hex@.take(i as int).push(hex@[i as int]));
        i = i + 1;
    }
    out
}

/// The name of the virtual devices for a phone: `env_name` (the value of
/// `AUDIOSOURCE_NAME`, which the caller reads) when given, else "android-"
/// followed by the first seven hex digits of the SHA-256 of the serial
/// (of the empty string when there is no serial).
pub fn get_audiosource_name(serial: Option<&str>, env_name: Option<String>) -> (out: String)
    ensures
        out@ == audiosource_name(serial, match env_name {
            Some(n) => Some(n@),
            None => None,
        }),
        env_name is None ==> {
            &&& out@.len() == 15
            &&& out@.take(8) == "android-"@
            &&& forall|i: int| 8 <= i < 15 ==> is_lower_hex(#[trigger] out@[i])
        },
{
    match env_name {
        Some(n) => n,
        None => {
            let digest = match serial {
                Some(s) => sha256_digest(s.as_bytes()),
                None => {
                    let empty: Vec<u8> = Vec::new();
                    sha256_digest(empty.as_slice())
                },
            };
            proof {
                lemma_name_shape(digest@);
            }
            name_from_digest(digest.as_slice())
        },
    }
}

/// The environment for `adb`: `ANDROID_SERIAL` set to the serial when one is
/// given, nothing otherwise.
pub fn get_adb_env(serial: Option<&str>) -> (envs: Vec<(String, String)>)
    ensures
        serial is None ==> envs@.len() == 0,
        serial matches Some(s) ==> envs@.len() == 1 && envs@[0].0@ == "ANDROID_SERIAL"@
            && envs@[0].1@ == s@,
{
    let mut envs: Vec<(String, String)> = Vec::new();
    if let Some(s) = serial {
        envs.push(("ANDROID_SERIAL".to_string(), s.to_string()));
    }
    envs
}

} // verus!
