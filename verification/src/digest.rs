//! Digests and encodings: SHA-256 of package bytes, lowercase hex, and
//! standard base64.
use vstd::prelude::*;
use vstd::string::StringSliceAdditionalSpecFns;

verus! {

/// The SHA-256 digest of `data` (computed by the `sha2` crate).
pub uninterp spec fn sha256_digest(data: Seq<u8>) -> Seq<u8>;

/// `Sha256::digest`: the digest is named; it is 32 bytes long, the output
/// size of SHA-256.
#[verifier::external_body]
fn sha256(data: &[u8]) -> (r: Vec<u8>)
    ensures
        r@ == sha256_digest(data@),
        r@.len() == 32,
{
    <sha2::Sha256 as sha2::Digest>::digest(data).to_vec()
}

/// The lowercase hex digit for `n` below 16.
pub open spec fn hex_digit(n: int) -> char {
    if n < 10 {
        (48 + n) as char
    } else {
        (87 + n) as char
    }
}

/// Two lowercase hex digits per byte, the high half first.
pub open spec fn hex_lower(bytes: Seq<u8>) -> Seq<char> {
    Seq::new(
        2 * bytes.len(),
        |i: int|
            if i % 2 == 0 {
                hex_digit((bytes[i / 2] / 16) as int)
            } else {
                hex_digit((bytes[i / 2] % 16) as int)
            },
    )
}

/// `hex::encode`: two lowercase hex digits per byte, the high half first.
#[verifier::external_body]
fn hex_encode(bytes: &[u8]) -> (r: String)
    ensures
        r@ == hex_lower(bytes@),
{
    hex::encode(bytes)
}

/// The SHA-256 of `data` as lowercase hex.
pub open spec fn sha256_hex(data: Seq<u8>) -> Seq<char> {
    hex_lower(sha256_digest(data))
}

/// The SHA-256 of `data` as 64 lowercase hex digits.
pub fn compute_sha256(bytes: &[u8]) -> (r: String)
    ensures
        r@ == sha256_hex(bytes@),
        r@.len() == 64,
{
    let d = sha256(bytes);
    hex_encode(d.as_slice())
}

/// The character for a 6-bit group in the standard base64 alphabet.
pub open spec fn b64_char(n: int) -> char {
    if n < 26 {
        (65 + n) as char
    } else if n < 52 {
        (71 + n) as char
    } else if n < 62 {
        (n - 4) as char
    } else if n == 62 {
        '+'
    } else {
        '/'
    }
}

/// Standard base64 with `=` padding: every three bytes become four
/// characters; a final one or two bytes become two or three characters and
/// padding.
pub open spec fn base64_standard(b: Seq<u8>) -> Seq<char>
    decreases b.len(),
{
    if b.len() == 0 {
        Seq::empty()
    } else if b.len() == 1 {
        seq![b64_char((b[0] / 4) as int), b64_char((b[0] % 4) * 16), '=', '=']
    } else if b.len() == 2 {
        seq![
            b64_char((b[0] / 4) as int),
            b64_char((b[0] % 4) * 16 + b[1] / 16),
            b64_char((b[1] % 16) * 4),
            '=',
        ]
    } else {
        seq![
            b64_char((b[0] / 4) as int),
            b64_char((b[0] % 4) * 16 + b[1] / 16),
            b64_char((b[1] % 16) * 4 + b[2] / 64),
            b64_char((b[2] % 64) as int),
        ] + base64_standard(b.skip(3))
    }
}

/// `base64::engine::general_purpose::STANDARD.encode`.
#[verifier::external_body]
pub(crate) fn base64_encode(bytes: &[u8]) -> (r: String)
    ensures
        r@ == base64_standard(bytes@),
{
    base64::Engine::encode(&base64::engine::general_purpose::STANDARD, bytes)
}


/// `b` followed by `n` more bytes of zero.
pub open spec fn zero_padded(b: Seq<u8>, n: nat) -> Seq<u8> {
    b + Seq::new(n, |i: int| 0u8)
}

/// The 64-byte block key of HMAC-SHA256: the key itself, or its digest when
/// it is longer than a block, padded with zeros.
pub open spec fn hmac_block_key(key: Seq<u8>) -> Seq<u8> {
    let k = if key.len() > 64 {
        sha256_digest(key)
    } else {
        key
    };
    zero_padded(k, (64 - k.len()) as nat)
}

/// Each byte of `b` xor `pad`.
pub open spec fn xor_pad(b: Seq<u8>, pad: u8) -> Seq<u8> {
    b.map_values(|x: u8| x ^ pad)
}

/// HMAC-SHA256 of `msg` under `key` (RFC 2104).
pub open spec fn hmac_sha256_spec(key: Seq<u8>, msg: Seq<u8>) -> Seq<u8> {
    let k0 = hmac_block_key(key);
    sha256_digest(xor_pad(k0, 0x5cu8) + sha256_digest(xor_pad(k0, 0x36u8) + msg))
}

fn push_all(v: &mut Vec<u8>, b: &[u8])
    ensures
        final(v)@ == old(v)@ + b@,
{
    let mut i: usize = 0;
    while i < b.len()
        invariant
            i <= b.len(),
            v@ == old(v)@ + b@.subrange(0, i as int),
        decreases b.len() - i,
    {
        v.push(b[i]);
        i = i + 1;
    }
    proof {
        assert(b@.subrange(0, b@.len() as int) =~= b@);
    }
}

/// HMAC-SHA256 of `msg` under `key`: 32 bytes.
pub fn hmac_sha256(key: &[u8], msg: &[u8]) -> (r: Vec<u8>)
    ensures
        r@ == hmac_sha256_spec(key@, msg@),
        r@.len() == 32,
{
    let k: Vec<u8> = if key.len() > 64 {
        sha256(key)
    } else {
        let mut c: Vec<u8> = Vec::new();
        push_all(&mut c, key);
        c
    };
    let ghost k0 = hmac_block_key(key@);
    assert(k@.len() <= 64);
    assert(k0 =~= zero_padded(k@, (64 - k@.len()) as nat));
    let mut inner: Vec<u8> = Vec::new();
    let mut outer: Vec<u8> = Vec::new();
    let mut i: usize = 0;
    while i < 64
        invariant
            i <= 64,
            k@.len() <= 64,
            k0 == zero_padded(k@, (64 - k@.len()) as nat),
            k0.len() == 64,
            inner@ == xor_pad(k0, 0x36u8).subrange(0, i as int),
            outer@ == xor_pad(k0, 0x5cu8).subrange(0, i as int),
        decreases 64 - i,
    {
        let b: u8 = if i < k.len() {
            k[i]
        } else {
            0u8
        };
        assert(b == k0[i as int]);
        inner.push(b ^ 0x36u8);
        outer.push(b ^ 0x5cu8);
        proof {
            assert(inner@ =~= xor_pad(k0, 0x36u8).subrange(0, i + 1));
            assert(outer@ =~= xor_pad(k0, 0x5cu8).subrange(0, i + 1));
        }
        i = i + 1;
    }
    proof {
        assert(inner@ =~= xor_pad(k0, 0x36u8));
        assert(outer@ =~= xor_pad(k0, 0x5cu8));
    }
    push_all(&mut inner, msg);
    let ih = sha256(inner.as_slice());
    push_all(&mut outer, ih.as_slice());
    sha256(outer.as_slice())
}

/// HMAC-SHA256 of the UTF-8 bytes of `msg` under `key`, as lowercase hex.
pub fn hmac_sha256_hex(key: &[u8], msg: &str) -> (r: String)
    ensures
        r@ == hex_lower(hmac_sha256_spec(key@, msg.spec_bytes())),
        r@.len() == 64,
{
    let d = hmac_sha256(key, msg.as_bytes());
    hex_encode(d.as_slice())
}

/// Whether `a` and `b` hold the same bytes. Equal-length inputs are compared
/// in full, whatever they hold, so the time taken does not tell where they
/// differ.
pub fn constant_time_eq(a: &[u8], b: &[u8]) -> (r: bool)
    ensures
        r == (a@ == b@),
{
    if a.len() != b.len() {
        return false;
    }
    let mut diff: u8 = 0;
    let mut i: usize = 0;
    proof {
        assert(a@.subrange(0, 0) =~= b@.subrange(0, 0));
    }
    while i < a.len()
        invariant
            i <= a.len(),
            a.len() == b.len(),
            (diff == 0) == (a@.subrange(0, i as int) == b@.subrange(0, i as int)),
        decreases a.len() - i,
    {
        let x = a[i];
        let y = b[i];
        let d2 = diff | (x ^ y);
        assert((d2 == 0) == (diff == 0 && x == y)) by (bit_vector)
            requires
                d2 == diff | (x ^ y),
        ;
        proof {
            if diff == 0 && x == y {
                assert(a@.subrange(0, i + 1) =~= b@.subrange(0, i + 1));
            }
            if a@.subrange(0, i + 1) == b@.subrange(0, i + 1) {
                assert(a@.subrange(0, i as int) =~= a@.subrange(0, i + 1).subrange(0, i as int));
                assert(b@.subrange(0, i as int) =~= b@.subrange(0, i + 1).subrange(0, i as int));
                assert(a@.subrange(0, i + 1)[i as int] == x);
            }
        }
        diff = d2;
        i = i + 1;
    }
    proof {
        assert(a@.subrange(0, a@.len() as int) =~= a@);
        assert(b@.subrange(0, b@.len() as int) =~= b@);
    }
    diff == 0
}
} // verus!
