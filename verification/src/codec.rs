//! Signed redirect codec: a keyed message-authentication tag over the
//! canonical encoding of a one-shot error message, so that a message carried
//! through a client-visible redirect URL cannot be forged.

use hmac::Mac;
use vstd::prelude::*;

verus! {

/// Opaque verification failure: decode errors, length mismatches and tag
/// mismatches are deliberately indistinguishable to the caller.
#[derive(Debug, PartialEq, Eq, Structural)]
pub struct VerificationError;

/// Spec: the byte of a hexadecimal digit, lower case for ten and up.
pub open spec fn hex_digit_of(n: u8) -> u8 {
    if n < 10 {
        (n + 48) as u8
    } else {
        (n + 87) as u8
    }
}

/// Spec: hexadecimal encoding of a byte string, two digits per byte.
pub open spec fn hex_encoded(b: Seq<u8>) -> Seq<u8>
    decreases b.len(),
{
    if b.len() == 0 {
        Seq::empty()
    } else {
        hex_encoded(b.drop_last())
            + seq![
                hex_digit_of((b.last() / 16) as u8),
                hex_digit_of((b.last() % 16) as u8),
            ]
    }
}

proof fn lemma_hex_encoded_push(s: Seq<u8>, x: u8)
    ensures
        hex_encoded(s.push(x)) == hex_encoded(s)
            + seq![hex_digit_of((x / 16) as u8), hex_digit_of((x % 16) as u8)],
{
    assert(s.push(x).drop_last() =~= s);
    assert(s.push(x).last() == x);
}

fn hex_digit(n: u8) -> (r: u8)
    requires
        n < 16,
    ensures
        r == hex_digit_of(n),
{
    if n < 10 {
        n + 48
    } else {
        n + 87
    }
}

/// Hexadecimal encoding of a byte string, two lower-case digits per byte.
pub fn hex_encode(bytes: &[u8]) -> (r: Vec<u8>)
    ensures
        r@ == hex_encoded(bytes@),
{
    let mut out: Vec<u8> = Vec::new();
    let mut i: usize = 0;
    while i < bytes.len()
        invariant
            i <= bytes@.len(),
            out@ == hex_encoded(bytes@.subrange(0, i as int)),
        decreases bytes@.len() - i,
    {
        let b = bytes[i];
        out.push(hex_digit(b / 16));
        out.push(hex_digit(b % 16));
        proof {
            lemma_hex_encoded_push(bytes@.subrange(0, i as int), bytes@[i as int]);
            assert(bytes@.subrange(0, i + 1 as int)
                =~= bytes@.subrange(0, i as int).push(bytes@[i as int]));
        }
        i = i + 1;
    }
    proof {
        assert(bytes@.subrange(0, bytes@.len() as int) =~= bytes@);
    }
    out
}

/// Spec: whether a byte is a hexadecimal digit, either case.
pub open spec fn is_hex_digit(c: u8) -> bool {
    (48 <= c <= 57) || (97 <= c <= 102) || (65 <= c <= 70)
}

/// Spec: numeric value of a hexadecimal digit byte.
pub open spec fn hex_val(c: u8) -> u8 {
    if 48 <= c <= 57 {
        (c - 48) as u8
    } else if 97 <= c <= 102 {
        (c - 87) as u8
    } else {
        (c - 55) as u8
    }
}

/// Spec: a byte string is a well-formed hexadecimal encoding.
pub open spec fn valid_hex(s: Seq<u8>) -> bool {
    s.len() % 2 == 0 && forall|j: int| 0 <= j < s.len() ==> is_hex_digit(#[trigger] s[j])
}

/// Spec: the bytes a well-formed hexadecimal string stands for.
pub open spec fn hex_decoded(s: Seq<u8>) -> Seq<u8>
    decreases s.len(),
{
    if s.len() < 2 {
        Seq::empty()
    } else {
        hex_decoded(s.drop_last().drop_last()).push(
            (hex_val(s[s.len() - 2]) * 16 + hex_val(s.last())) as u8,
        )
    }
}

proof fn lemma_hex_decoded_push(s: Seq<u8>, c1: u8, c2: u8)
    ensures
        hex_decoded(s.push(c1).push(c2)) == hex_decoded(s).push(
            (hex_val(c1) * 16 + hex_val(c2)) as u8,
        ),
{
    assert(s.push(c1).push(c2).drop_last().drop_last() =~= s);
    assert(s.push(c1).push(c2)[s.len() as int] == c1);
    assert(s.push(c1).push(c2).last() == c2);
}

fn hex_value(c: u8) -> (r: Option<u8>)
    ensures
        r is Some <==> is_hex_digit(c),
        r matches Some(v) ==> v == hex_val(c) && v < 16,
{
    if 48 <= c && c <= 57 {
        Some(c - 48)
    } else if 97 <= c && c <= 102 {
        Some(c - 87)
    } else if 65 <= c && c <= 70 {
        Some(c - 55)
    } else {
        None
    }
}

/// Decode a hexadecimal byte string; fails on odd length or a non-digit.
pub fn hex_decode(s: &[u8]) -> (r: Result<Vec<u8>, VerificationError>)
    ensures
        r is Ok <==> valid_hex(s@),
        r matches Ok(v) ==> v@ == hex_decoded(s@),
{
    if s.len() % 2 != 0 {
        return Err(VerificationError);
    }
    let mut out: Vec<u8> = Vec::new();
    let mut i: usize = 0;
    while i < s.len()
        invariant
            i % 2 == 0,
            i <= s@.len(),
            s@.len() % 2 == 0,
            forall|j: int| 0 <= j < i ==> is_hex_digit(#[trigger] s@[j]),
            out@ == hex_decoded(s@.subrange(0, i as int)),
        decreases s@.len() - i,
    {
        let c1 = s[i];
        let c2 = s[i + 1];
        let v1 = match hex_value(c1) {
            Some(v) => v,
            None => {
                proof {
                    assert(!is_hex_digit(s@[i as int]));
                }
                return Err(VerificationError);
            },
        };
        let v2 = match hex_value(c2) {
            Some(v) => v,
            None => {
                proof {
                    assert(!is_hex_digit(s@[i + 1 as int]));
                }
                return Err(VerificationError);
            },
        };
        out.push(v1 * 16 + v2);
        proof {
            lemma_hex_decoded_push(s@.subrange(0, i as int), s@[i as int], s@[i + 1 as int]);
            assert(s@.subrange(0, i + 2 as int) =~= s@.subrange(0, i as int).push(
                s@[i as int],
            ).push(s@[i + 1 as int]));
        }
        i = i + 2;
    }
    proof {
        assert(s@.subrange(0, s@.len() as int) =~= s@);
    }
    Ok(out)
}

/// Law: decoding inverts encoding, and an encoded string is always
/// well-formed hexadecimal.
pub proof fn lemma_hex_round_trip(b: Seq<u8>)
    ensures
        valid_hex(hex_encoded(b)),
        hex_decoded(hex_encoded(b)) == b,
    decreases b.len(),
{
    if b.len() == 0 {
    } else {
        lemma_hex_round_trip(b.drop_last());
        let prefix = hex_encoded(b.drop_last());
        let hi = hex_digit_of((b.last() / 16) as u8);
        let lo = hex_digit_of((b.last() % 16) as u8);
        assert(is_hex_digit(hi));
        assert(is_hex_digit(lo));
        assert forall|j: int| 0 <= j < hex_encoded(b).len() implies is_hex_digit(
            #[trigger] hex_encoded(b)[j],
        ) by {
            if j < prefix.len() {
                assert(hex_encoded(b)[j] == prefix[j]);
            }
        }
        assert(hex_encoded(b) =~= prefix.push(hi).push(lo));
        lemma_hex_decoded_push(prefix, hi, lo);
        assert(hex_val(hi) == b.last() / 16);
        assert(hex_val(lo) == b.last() % 16);
        assert(hex_decoded(hex_encoded(b)) =~= b);
    }
}

/// Spec: bytes a message may carry unescaped in the canonical encoding:
/// ASCII letters, digits, and `- . _ ~`.
pub open spec fn is_url_unreserved(b: u8) -> bool {
    (48 <= b <= 57) || (65 <= b <= 90) || (97 <= b <= 122) || b == 45 || b == 46 || b == 95
        || b == 126
}

/// Spec: percent-encoding of a byte string; reserved bytes become
/// `%` followed by two hexadecimal digits.
pub open spec fn percent_encoded(s: Seq<u8>) -> Seq<u8>
    decreases s.len(),
{
    if s.len() == 0 {
        Seq::empty()
    } else {
        percent_encoded(s.drop_last()) + (if is_url_unreserved(s.last()) {
            seq![s.last()]
        } else {
            seq![
                37u8,
                hex_digit_of((s.last() / 16) as u8),
                hex_digit_of((s.last() % 16) as u8),
            ]
        })
    }
}

/// Percent-encode a byte string.
pub fn percent_encode(s: &[u8]) -> (r: Vec<u8>)
    ensures
        r@ == percent_encoded(s@),
{
    let mut out: Vec<u8> = Vec::new();
    let mut i: usize = 0;
    while i < s.len()
        invariant
            i <= s@.len(),
            out@ == percent_encoded(s@.subrange(0, i as int)),
        decreases s@.len() - i,
    {
        let b = s[i];
        if (48 <= b && b <= 57) || (65 <= b && b <= 90) || (97 <= b && b <= 122) || b == 45
            || b == 46 || b == 95 || b == 126 {
            out.push(b);
        } else {
            out.push(37);
            out.push(hex_digit(b / 16));
            out.push(hex_digit(b % 16));
        }
        proof {
            assert(s@.subrange(0, i + 1 as int).drop_last() =~= s@.subrange(0, i as int));
            assert(s@.subrange(0, i + 1 as int).last() == s@[i as int]);
        }
        i = i + 1;
    }
    proof {
        assert(s@.subrange(0, s@.len() as int) =~= s@);
    }
    out
}

/// Spec: what one byte contributes to the percent-encoding.
pub open spec fn percent_encoded_byte(b: u8) -> Seq<u8> {
    if is_url_unreserved(b) {
        seq![b]
    } else {
        seq![37u8, hex_digit_of((b / 16) as u8), hex_digit_of((b % 16) as u8)]
    }
}

proof fn lemma_percent_encoded_front(s: Seq<u8>)
    requires
        s.len() > 0,
    ensures
        percent_encoded(s) == percent_encoded_byte(s[0]) + percent_encoded(s.drop_first()),
    decreases s.len(),
{
    if s.len() == 1 {
        assert(s.drop_last() =~= Seq::<u8>::empty());
        assert(s.drop_first() =~= Seq::<u8>::empty());
        assert(percent_encoded(s) =~= percent_encoded_byte(s[0]) + percent_encoded(
            s.drop_first(),
        ));
    } else {
        lemma_percent_encoded_front(s.drop_last());
        assert(s.drop_last()[0] == s[0]);
        assert(s.drop_last().drop_first() =~= s.drop_first().drop_last());
        assert(s.drop_first().last() == s.last());
        assert(percent_encoded(s) =~= percent_encoded_byte(s[0]) + percent_encoded(
            s.drop_first(),
        ));
    }
}

/// Law: percent-encoding is injective: distinct messages never share an
/// encoding, because an unreserved byte is never the escape byte.
pub proof fn lemma_percent_encoded_injective(s1: Seq<u8>, s2: Seq<u8>)
    requires
        percent_encoded(s1) == percent_encoded(s2),
    ensures
        s1 == s2,
    decreases s1.len(),
{
    if s1.len() == 0 {
        if s2.len() > 0 {
            lemma_percent_encoded_front(s2);
            assert(percent_encoded(s2).len() > 0);
        }
        assert(s1 =~= s2);
    } else if s2.len() == 0 {
        lemma_percent_encoded_front(s1);
        assert(percent_encoded(s1).len() > 0);
    } else {
        lemma_percent_encoded_front(s1);
        lemma_percent_encoded_front(s2);
        let e1 = percent_encoded(s1);
        let u1 = percent_encoded_byte(s1[0]);
        let u2 = percent_encoded_byte(s2[0]);
        assert(e1[0] == u1[0]);
        assert(e1[0] == u2[0]);
        if is_url_unreserved(s1[0]) && is_url_unreserved(s2[0]) {
            assert(s1[0] == s2[0]);
            assert(percent_encoded(s1.drop_first()) =~= percent_encoded(s2.drop_first())) by {
                assert(percent_encoded(s1.drop_first()) =~= e1.subrange(1, e1.len() as int));
                assert(percent_encoded(s2.drop_first()) =~= e1.subrange(1, e1.len() as int));
            }
            lemma_percent_encoded_injective(s1.drop_first(), s2.drop_first());
            assert(s1.len() == s2.len());
            assert forall|k: int| 0 <= k < s1.len() implies s1[k] == s2[k] by {
                if k > 0 {
                    assert(s1.drop_first()[k - 1] == s2.drop_first()[k - 1]);
                }
            }
            assert(s1 =~= s2);
        } else if !is_url_unreserved(s1[0]) && !is_url_unreserved(s2[0]) {
            assert(e1[1] == hex_digit_of((s1[0] / 16) as u8));
            assert(e1[2] == hex_digit_of((s1[0] % 16) as u8));
            assert(e1[1] == hex_digit_of((s2[0] / 16) as u8));
            assert(e1[2] == hex_digit_of((s2[0] % 16) as u8));
            assert(s1[0] / 16 == s2[0] / 16);
            assert(s1[0] % 16 == s2[0] % 16);
            assert(s1[0] == s2[0]);
            assert(percent_encoded(s1.drop_first()) =~= percent_encoded(s2.drop_first())) by {
                assert(percent_encoded(s1.drop_first()) =~= e1.subrange(3, e1.len() as int));
                assert(percent_encoded(s2.drop_first()) =~= e1.subrange(3, e1.len() as int));
            }
            lemma_percent_encoded_injective(s1.drop_first(), s2.drop_first());
            assert(s1.len() == s2.len());
            assert forall|k: int| 0 <= k < s1.len() implies s1[k] == s2[k] by {
                if k > 0 {
                    assert(s1.drop_first()[k - 1] == s2.drop_first()[k - 1]);
                }
            }
            assert(s1 =~= s2);
        } else {
            // One head is unreserved and one is escaped: the first encoded
            // byte would have to be the escape byte and not be it.
            assert(false);
        }
    }
}

/// Spec: the canonical serialization a tag is computed over, a fixed
/// `error=` key followed by the percent-encoded message.
pub open spec fn canonical_message(p: Seq<u8>) -> Seq<u8> {
    seq![101u8, 114u8, 114u8, 111u8, 114u8, 61u8] + percent_encoded(p)
}

/// Canonical serialization of a message, as `canonical_message` gives it.
pub fn canonical_encode(p: &[u8]) -> (r: Vec<u8>)
    ensures
        r@ == canonical_message(p@),
{
    let mut out: Vec<u8> = Vec::new();
    out.push(101);
    out.push(114);
    out.push(114);
    out.push(111);
    out.push(114);
    out.push(61);
    let mut enc = percent_encode(p);
    out.append(&mut enc);
    proof {
        assert(out@ =~= canonical_message(p@));
    }
    out
}

/// What HMAC-SHA-256 returns for a key and a message: a fixed function of
/// the two arguments alone.
pub uninterp spec fn hmac_sha256_of(key: Seq<u8>, msg: Seq<u8>) -> Seq<u8>;

/// Relies on hmac::Hmac over sha2::Sha256: the tag is a function of key and
/// message alone, 32 bytes long; new_from_slice accepts keys of any length.
#[verifier::external_body]
fn hmac_sha256(key: &[u8], msg: &[u8]) -> (r: Vec<u8>)
    ensures
        r@ == hmac_sha256_of(key@, msg@),
        r@.len() == 32,
{
    let mut mac = <hmac::Hmac<sha2::Sha256> as Mac>::new_from_slice(key).unwrap();
    mac.update(msg);
    mac.finalize().into_bytes().to_vec()
}

/// Relies on hmac's verify_slice: succeeds exactly when the tag equals
/// HMAC-SHA-256 of the message under the key, compared in constant time.
#[verifier::external_body]
fn hmac_sha256_check(key: &[u8], msg: &[u8], tag: &[u8]) -> (r: bool)
    ensures
        r == (tag@ == hmac_sha256_of(key@, msg@)),
{
    let mut mac = <hmac::Hmac<sha2::Sha256> as Mac>::new_from_slice(key).unwrap();
    mac.update(msg);
    mac.verify_slice(tag).is_ok()
}

/// Spec: the hexadecimal tag `sign` produces for a message and a key.
pub open spec fn sign_spec(payload: Seq<u8>, key: Seq<u8>) -> Seq<u8> {
    hex_encoded(hmac_sha256_of(key, canonical_message(payload)))
}

/// Spec: exactly when `verify` accepts a message, hexadecimal tag and key.
pub open spec fn verify_spec(payload: Seq<u8>, tag_hex: Seq<u8>, key: Seq<u8>) -> bool {
    valid_hex(tag_hex) && hex_decoded(tag_hex) == hmac_sha256_of(key, canonical_message(payload))
}

/// Compute the hexadecimal authentication tag of a message under a key.
pub fn sign(payload: &[u8], key: &[u8]) -> (r: Vec<u8>)
    ensures
        r@ == sign_spec(payload@, key@),
{
    let msg = canonical_encode(payload);
    let tag = hmac_sha256(key, msg.as_slice());
    hex_encode(tag.as_slice())
}

/// Check a hexadecimal tag against a message and a key; fails closed on any
/// decode error, length mismatch or tag mismatch, without distinction.
pub fn verify(payload: &[u8], tag_hex: &[u8], key: &[u8]) -> (r: Result<(), VerificationError>)
    ensures
        r is Ok <==> verify_spec(payload@, tag_hex@, key@),
{
    let tag = match hex_decode(tag_hex) {
        Ok(t) => t,
        Err(e) => {
            return Err(e);
        },
    };
    let msg = canonical_encode(payload);
    if hmac_sha256_check(key, msg.as_slice(), tag.as_slice()) {
        Ok(())
    } else {
        Err(VerificationError)
    }
}

/// The `error` and `tag` query parameters of a login redirect.
pub struct QueryParams {
    pub error: Vec<u8>,
    pub tag: Vec<u8>,
}

impl QueryParams {
    /// Return the carried message only if the tag authenticates it under
    /// the server's secret; any failure is one opaque error.
    pub fn verify(self, secret: &[u8]) -> (r: Result<Vec<u8>, VerificationError>)
        ensures
            r is Ok <==> verify_spec(self.error@, self.tag@, secret@),
            r matches Ok(p) ==> p@ == self.error@,
    {
        match verify(self.error.as_slice(), self.tag.as_slice(), secret) {
            Ok(()) => Ok(self.error),
            Err(e) => Err(e),
        }
    }
}

/// Law: the canonical serialization is injective: two distinct messages are
/// always authenticated over distinct byte strings, so rejecting an altered
/// message rests on the MAC alone.
pub proof fn lemma_canonical_message_injective(p1: Seq<u8>, p2: Seq<u8>)
    requires
        p1 != p2,
    ensures
        canonical_message(p1) != canonical_message(p2),
{
    if canonical_message(p1) == canonical_message(p2) {
        let c1 = canonical_message(p1);
        assert(percent_encoded(p1) =~= c1.subrange(6, c1.len() as int));
        assert(percent_encoded(p2) =~= c1.subrange(6, c1.len() as int));
        lemma_percent_encoded_injective(p1, p2);
    }
}

/// Law: a tag produced by `sign` verifies against its own message and key.
pub proof fn lemma_sign_verify_round_trip(payload: Seq<u8>, key: Seq<u8>)
    ensures
        verify_spec(payload, sign_spec(payload, key), key),
{
    lemma_hex_round_trip(hmac_sha256_of(key, canonical_message(payload)));
}

/// Law: verification rejects every tag string that does not decode to the
/// genuine tag bytes of the message — in particular any alteration of the
/// genuine tag's bytes.
pub proof fn lemma_verify_rejects_forged_tag(payload: Seq<u8>, key: Seq<u8>, tag_hex: Seq<u8>)
    requires
        !(valid_hex(tag_hex) && hex_decoded(tag_hex) == hex_decoded(sign_spec(payload, key))),
    ensures
        !verify_spec(payload, tag_hex, key),
{
    lemma_hex_round_trip(hmac_sha256_of(key, canonical_message(payload)));
}

/// Law: a genuine tag for one message never verifies another message whose
/// tag bytes differ; with the MAC treated as collision-free over distinct
/// canonical encodings, this is failure for every altered message.
pub proof fn lemma_verify_rejects_altered_payload(p1: Seq<u8>, p2: Seq<u8>, key: Seq<u8>)
    requires
        hmac_sha256_of(key, canonical_message(p2)) != hmac_sha256_of(key, canonical_message(p1)),
    ensures
        !verify_spec(p2, sign_spec(p1, key), key),
{
    lemma_hex_round_trip(hmac_sha256_of(key, canonical_message(p1)));
}

} // verus!
