//! Digests, Base64, and what the portal makes of them: the request signature and
//! the password encoding.
use vstd::prelude::*;

use crate::text;

verus! {

/// The character that stands for a six-bit value in the standard alphabet.
pub open spec fn sextet_char(v: int) -> char {
    if v < 26 {
        ('A' as int + v) as char
    } else if v < 52 {
        ('a' as int + (v - 26)) as char
    } else if v < 62 {
        ('0' as int + (v - 52)) as char
    } else if v == 62 {
        '+'
    } else {
        '/'
    }
}

/// The byte at `i`, or zero past the end.
pub open spec fn byte_or_zero(data: Seq<u8>, i: int) -> int {
    if 0 <= i < data.len() { data[i] as int } else { 0 }
}

/// The three bytes of group `g` as one 24-bit number.
pub open spec fn group_word(data: Seq<u8>, g: int) -> int {
    byte_or_zero(data, 3 * g) * 65536 + byte_or_zero(data, 3 * g + 1) * 256 + byte_or_zero(
        data,
        3 * g + 2,
    )
}

/// The six bits of a 24-bit number that character `k` of its group shows.
pub open spec fn sextet(word: int, k: int) -> int {
    if k == 0 {
        word / 262144
    } else if k == 1 {
        word / 4096 % 64
    } else if k == 2 {
        word / 64 % 64
    } else {
        word % 64
    }
}

/// Character `j` of the Base64 text of `data`.
pub open spec fn base64_char(data: Seq<u8>, j: int) -> char {
    if 3 * (j / 4) + j % 4 > data.len() {
        '='
    } else {
        sextet_char(sextet(group_word(data, j / 4), j % 4))
    }
}

/// The length of the Base64 text of `n` bytes.
pub open spec fn base64_len(n: int) -> int {
    4 * ((n + 2) / 3)
}

/// The Base64 text of `data`: standard alphabet, padded (RFC 4648, section 4).
pub open spec fn base64(data: Seq<u8>) -> Seq<char> {
    Seq::new(base64_len(data.len() as int) as nat, |j: int| base64_char(data, j))
}

/// `Engine::encode` of the base64 crate with its `STANDARD` engine: the padded
/// Base64 text in the standard alphabet. The call panics when the text would not
/// fit in memory's address range.
#[verifier::external_body]
fn base64_encode(data: &[u8]) -> (t: String)
    requires
        base64_len(data@.len() as int) <= isize::MAX,
    ensures
        t@ == base64(data@),
{
    base64::Engine::encode(&base64::engine::general_purpose::STANDARD, data)
}

/// The SHA-256 digest of a byte string.
pub uninterp spec fn sha256_of(data: Seq<u8>) -> [u8; 32];

/// `Sha256::digest` of the sha2 crate, which depends on the bytes alone.
#[verifier::external_body]
fn sha256(data: &[u8]) -> (d: [u8; 32])
    ensures
        d == sha256_of(data@),
{
    <sha2::Sha256 as sha2::Digest>::digest(data).into()
}

/// The MD5 digest of a byte string.
pub uninterp spec fn md5_of(data: Seq<u8>) -> [u8; 16];

/// `compute` of the md5 crate, which depends on the bytes alone.
#[verifier::external_body]
fn md5(data: &[u8]) -> (d: [u8; 16])
    ensures
        d == md5_of(data@),
{
    md5::compute(data).0
}

/// The text that a signature hashes: `timestamp@uid@token`.
pub open spec fn signed_text(uid: Seq<char>, token: Seq<char>, ts: nat) -> Seq<char> {
    text::decimal(ts) + seq!['@'] + uid + seq!['@'] + token
}

/// What a signature holds under its Base64: `digest@timestamp`, the digest in
/// lower-case hexadecimal.
pub open spec fn stamped_digest(digest: Seq<u8>, ts: nat) -> Seq<char> {
    text::lower_hex(digest) + seq!['@'] + text::decimal(ts)
}

/// The signature that carries a digest and a timestamp.
pub open spec fn signature_text(digest: Seq<u8>, ts: nat) -> Seq<char> {
    base64(vstd::utf8::encode_utf8(stamped_digest(digest, ts)))
}

/// The `x-signature` of a request: Base64(hex(SHA256("timestamp@uid@token")) +
/// "@" + timestamp).
pub open spec fn signature(uid: Seq<char>, token: Seq<char>, ts: nat) -> Seq<char> {
    signature_text(sha256_of(vstd::utf8::encode_utf8(signed_text(uid, token, ts)))@, ts)
}

/// The signature of a request by `uid` with `token` at `ts` milliseconds.
pub fn compute_signature(uid: &str, token: &str, ts: u64) -> (s: String)
    ensures
        s@ == signature(uid@, token@, ts as nat),
{
    let mut plain = text::decimal_text(ts);
    proof {
        reveal_strlit("@");
    }
    plain.append("@");
    plain.append(uid);
    plain.append("@");
    plain.append(token);
    assert(plain@ =~= signed_text(uid@, token@, ts as nat));
    let digest = sha256(plain.as_str().as_bytes());
    sign_digest(&digest, ts)
}

/// The signature that carries a given SHA-256 digest and timestamp.
pub fn sign_digest(digest: &[u8; 32], ts: u64) -> (s: String)
    ensures
        s@ == signature_text(digest@, ts as nat),
{
    let mut stamped = text::lower_hex_text(digest.as_slice());
    proof {
        reveal_strlit("@");
    }
    stamped.append("@");
    text::push_decimal(&mut stamped, ts);
    assert(stamped@ =~= stamped_digest(digest@, ts as nat));
    proof {
        lemma_stamped_digest_is_short(digest@, ts as nat);
    }
    base64_encode(stamped.as_str().as_bytes())
}

/// What the portal takes for a password with the given MD5 digest: Base64 of its
/// lower-case hexadecimal text.
pub open spec fn password_text(digest: Seq<u8>) -> Seq<char> {
    base64(vstd::utf8::encode_utf8(text::lower_hex(digest)))
}

/// The password encoding of the portal: Base64(hex(MD5(password))).
pub fn hash_password(password: &str) -> (h: String)
    ensures
        h@ == password_text(md5_of(vstd::utf8::encode_utf8(password@))@),
{
    let digest = md5(password.as_bytes());
    password_digest(&digest)
}

/// The encoding of a password with the given MD5 digest.
pub fn password_digest(digest: &[u8; 16]) -> (h: String)
    ensures
        h@ == password_text(digest@),
{
    let hex = text::lower_hex_text(digest.as_slice());
    proof {
        lemma_hex_is_ascii(digest@);
        vstd::utf8::is_ascii_chars_encode_utf8(hex@);
    }
    base64_encode(hex.as_str().as_bytes())
}

proof fn lemma_hex_is_ascii(digest: Seq<u8>)
    ensures
        vstd::utf8::is_ascii_chars(text::lower_hex(digest)),
{
}

/// The decimal numeral of a number below ten to the `digits` has at most that many
/// digits.
proof fn lemma_decimal_len(n: nat, digits: nat)
    requires
        n < vstd::arithmetic::power::pow(10, digits),
        digits > 0,
    ensures
        text::decimal(n).len() <= digits,
    decreases digits,
{
    reveal(vstd::arithmetic::power::pow);
    if n >= 10 {
        assert(digits > 1) by {
            reveal_with_fuel(vstd::arithmetic::power::pow, 2);
        }
        lemma_decimal_len(n / 10, (digits - 1) as nat);
    }
}

proof fn lemma_stamped_digest_is_ascii(digest: Seq<u8>, ts: nat)
    ensures
        vstd::utf8::is_ascii_chars(stamped_digest(digest, ts)),
{
    lemma_hex_is_ascii(digest);
    text::lemma_decimal_value(ts);
    let t = stamped_digest(digest, ts);
    assert forall|i: int| 0 <= i < t.len() implies '\0' <= #[trigger] t[i] <= '\u{7f}' by {
        let hex = text::lower_hex(digest);
        let num = text::decimal(ts);
        if i < hex.len() {
            assert(t[i] == hex[i]);
        } else if i > hex.len() {
            assert(t[i] == num[i - hex.len() - 1]);
            assert(text::is_digit(num[i - hex.len() - 1]));
        }
    }
}

proof fn lemma_stamped_digest_is_short(digest: Seq<u8>, ts: nat)
    requires
        digest.len() <= 32,
        ts <= u64::MAX,
    ensures
        base64_len(vstd::utf8::encode_utf8(stamped_digest(digest, ts)).len() as int) <= isize::MAX,
{
    lemma_stamped_digest_is_ascii(digest, ts);
    vstd::utf8::is_ascii_chars_encode_utf8(stamped_digest(digest, ts));
    assert(ts < vstd::arithmetic::power::pow(10, 20)) by {
        reveal_with_fuel(vstd::arithmetic::power::pow, 21);
    }
    lemma_decimal_len(ts, 20);
}

proof fn lemma_sextet_char_is_injective(a: int, b: int)
    requires
        0 <= a < 64,
        0 <= b < 64,
        sextet_char(a) == sextet_char(b),
    ensures
        a == b,
{
}

proof fn lemma_sextet_char_is_no_padding(a: int)
    requires
        0 <= a < 64,
    ensures
        sextet_char(a) != '=',
{
}

proof fn lemma_sextet_range(data: Seq<u8>, g: int, k: int)
    requires
        0 <= k < 4,
    ensures
        0 <= sextet(group_word(data, g), k) < 64,
{
}

/// The length of a byte string shows in its Base64 text.
proof fn lemma_base64_shows_length(a: Seq<u8>, b: Seq<u8>)
    requires
        a.len() < b.len(),
    ensures
        base64(a) != base64(b),
{
    assert(base64(a).len() == base64_len(a.len() as int));
    assert(base64(b).len() == base64_len(b.len() as int));
    if base64(a).len() == base64(b).len() {
        let n = a.len() as int;
        let g = (n + 2) / 3 - 1;
        let k = n - 3 * g + 1;
        let j = 4 * g + k;
        assert(j / 4 == g && j % 4 == k);
        assert(base64(a)[j] == '=');
        lemma_sextet_range(b, g, k);
        lemma_sextet_char_is_no_padding(sextet(group_word(b, g), k));
        assert(base64(b)[j] == base64_char(b, j));
    }
}

/// A group of characters fixes the 24 bits that it shows.
proof fn lemma_base64_shows_group(a: Seq<u8>, b: Seq<u8>, g: int)
    requires
        base64(a) == base64(b),
        a.len() == b.len(),
        0 <= g,
        3 * g < a.len(),
    ensures
        group_word(a, g) == group_word(b, g),
{
    assert forall|k: int| 0 <= k < 4 implies #[trigger] sextet(group_word(a, g), k) == sextet(
        group_word(b, g),
        k,
    ) by {
        let j = 4 * g + k;
        assert(j / 4 == g && j % 4 == k);
        lemma_sextet_range(a, g, k);
        lemma_sextet_range(b, g, k);
        assert(base64(a)[j] == base64_char(a, j));
        assert(base64(b)[j] == base64_char(b, j));
        if 3 * g + k <= a.len() {
            lemma_sextet_char_is_injective(
                sextet(group_word(a, g), k),
                sextet(group_word(b, g), k),
            );
        }
    }
    let w = group_word(a, g);
    let v = group_word(b, g);
    assert(sextet(w, 0) == sextet(v, 0) && sextet(w, 1) == sextet(v, 1));
    assert(sextet(w, 2) == sextet(v, 2) && sextet(w, 3) == sextet(v, 3));
    lemma_word_from_sextets(w);
    lemma_word_from_sextets(v);
}

proof fn lemma_word_from_sextets(w: int)
    requires
        0 <= w < 16777216,
    ensures
        w == sextet(w, 0) * 262144 + sextet(w, 1) * 4096 + sextet(w, 2) * 64 + sextet(w, 3),
{
    assert(w / 64 / 64 == w / 4096 && w / 4096 / 64 == w / 262144);
}

proof fn lemma_bytes_from_word(a: Seq<u8>, b: Seq<u8>, g: int)
    requires
        group_word(a, g) == group_word(b, g),
    ensures
        byte_or_zero(a, 3 * g) == byte_or_zero(b, 3 * g),
        byte_or_zero(a, 3 * g + 1) == byte_or_zero(b, 3 * g + 1),
        byte_or_zero(a, 3 * g + 2) == byte_or_zero(b, 3 * g + 2),
{
}

/// Byte strings with the same Base64 text are the same.
pub proof fn base64_is_injective(a: Seq<u8>, b: Seq<u8>)
    requires
        base64(a) == base64(b),
    ensures
        a == b,
{
    if a.len() < b.len() {
        lemma_base64_shows_length(a, b);
    }
    if b.len() < a.len() {
        lemma_base64_shows_length(b, a);
    }
    assert forall|i: int| 0 <= i < a.len() implies a[i] == b[i] by {
        let g = i / 3;
        lemma_base64_shows_group(a, b, g);
        lemma_bytes_from_word(a, b, g);
        assert(byte_or_zero(a, i) == byte_or_zero(b, i)) by {
            assert(i == 3 * g || i == 3 * g + 1 || i == 3 * g + 2);
        }
    }
    assert(a =~= b);
}

/// A signature shows its timestamp and the digest that it signs: two signatures
/// agree only where both agree.
pub proof fn signature_shows_digest_and_time(d1: [u8; 32], t1: nat, d2: [u8; 32], t2: nat)
    requires
        signature_text(d1@, t1) == signature_text(d2@, t2),
    ensures
        d1@ == d2@,
        t1 == t2,
{
    let s1 = stamped_digest(d1@, t1);
    let s2 = stamped_digest(d2@, t2);
    base64_is_injective(vstd::utf8::encode_utf8(s1), vstd::utf8::encode_utf8(s2));
    vstd::utf8::encode_utf8_decode_utf8(s1);
    vstd::utf8::encode_utf8_decode_utf8(s2);
    assert(text::lower_hex(d1@) =~= s1.take(64));
    assert(text::lower_hex(d2@) =~= s2.take(64));
    text::lower_hex_is_injective(d1@, d2@);
    assert(text::decimal(t1) =~= s1.skip(65));
    assert(text::decimal(t2) =~= s2.skip(65));
    text::decimal_is_injective(t1, t2);
}

/// No two requests made at different times carry the same signature, whoever
/// makes them.
pub proof fn signatures_differ_over_time(
    uid1: Seq<char>,
    token1: Seq<char>,
    t1: nat,
    uid2: Seq<char>,
    token2: Seq<char>,
    t2: nat,
)
    requires
        t1 != t2,
    ensures
        signature(uid1, token1, t1) != signature(uid2, token2, t2),
{
    if signature(uid1, token1, t1) == signature(uid2, token2, t2) {
        signature_shows_digest_and_time(
            sha256_of(vstd::utf8::encode_utf8(signed_text(uid1, token1, t1))),
            t1,
            sha256_of(vstd::utf8::encode_utf8(signed_text(uid2, token2, t2))),
            t2,
        );
    }
}

/// Passwords are encoded alike exactly where their MD5 digests agree.
pub proof fn password_encoding_shows_digest(d1: [u8; 16], d2: [u8; 16])
    ensures
        password_text(d1@) == password_text(d2@) <==> d1@ == d2@,
{
    if password_text(d1@) == password_text(d2@) {
        let h1 = text::lower_hex(d1@);
        let h2 = text::lower_hex(d2@);
        base64_is_injective(vstd::utf8::encode_utf8(h1), vstd::utf8::encode_utf8(h2));
        vstd::utf8::encode_utf8_decode_utf8(h1);
        vstd::utf8::encode_utf8_decode_utf8(h2);
        text::lower_hex_is_injective(d1@, d2@);
    }
}

/// The six bits that a character of a Base64 text shows; padding shows none.
pub open spec fn sextet_value(c: char) -> int {
    if 'A' <= c <= 'Z' {
        c as int - 'A' as int
    } else if 'a' <= c <= 'z' {
        c as int - 'a' as int + 26
    } else if '0' <= c <= '9' {
        c as int - '0' as int + 52
    } else if c == '+' {
        62
    } else if c == '/' {
        63
    } else {
        0
    }
}

/// The 24 bits that group `g` of a Base64 text shows.
pub open spec fn shown_word(t: Seq<char>, g: int) -> int {
    sextet_value(t[4 * g]) * 262144 + sextet_value(t[4 * g + 1]) * 4096 + sextet_value(
        t[4 * g + 2],
    ) * 64 + sextet_value(t[4 * g + 3])
}

/// The padding at the end of a Base64 text.
pub open spec fn padding_len(t: Seq<char>) -> int {
    if t.len() < 4 || t.last() != '=' {
        0
    } else if t[t.len() - 2] != '=' {
        1
    } else {
        2
    }
}

/// The bytes that a Base64 text holds.
pub open spec fn base64_bytes(t: Seq<char>) -> Seq<u8> {
    Seq::new(
        (t.len() / 4 * 3 - padding_len(t)) as nat,
        |i: int|
            (if i % 3 == 0 {
                shown_word(t, i / 3) / 65536
            } else if i % 3 == 1 {
                shown_word(t, i / 3) / 256 % 256
            } else {
                shown_word(t, i / 3) % 256
            }) as u8,
    )
}

proof fn lemma_sextet_reads_back(v: int)
    requires
        0 <= v < 64,
    ensures
        sextet_value(sextet_char(v)) == v,
        sextet_char(v) != '=',
{
}

proof fn lemma_char_shows_sextet(data: Seq<u8>, g: int, k: int)
    requires
        0 <= g,
        0 <= k < 4,
        3 * g < data.len(),
    ensures
        sextet_value(base64(data)[4 * g + k]) == sextet(group_word(data, g), k),
        base64(data)[4 * g + k] == '=' <==> 3 * g + k > data.len(),
{
    let j = 4 * g + k;
    assert(j / 4 == g && j % 4 == k);
    assert(base64(data)[j] == base64_char(data, j));
    lemma_sextet_range(data, g, k);
    lemma_sextet_reads_back(sextet(group_word(data, g), k));
    if 3 * g + k > data.len() {
        assert(byte_or_zero(data, 3 * g + 2) == 0);
        if k == 2 {
            assert(byte_or_zero(data, 3 * g + 1) == 0);
        }
    }
}

proof fn lemma_padding(data: Seq<u8>)
    ensures
        base64(data).len() / 4 * 3 - padding_len(base64(data)) == data.len(),
        base64(data).len() % 4 == 0,
{
    let t = base64(data);
    let n = data.len() as int;
    if n > 0 {
        let g = (n + 2) / 3 - 1;
        assert(t.len() == 4 * g + 4);
        lemma_char_shows_sextet(data, g, 3);
        lemma_char_shows_sextet(data, g, 2);
        assert(t.last() == t[4 * g + 3]);
        assert(t[t.len() - 2] == t[4 * g + 2]);
    }
}

proof fn lemma_shown_word(data: Seq<u8>, g: int)
    requires
        0 <= g,
        3 * g < data.len(),
    ensures
        shown_word(base64(data), g) == group_word(data, g),
{
    lemma_char_shows_sextet(data, g, 0);
    lemma_char_shows_sextet(data, g, 1);
    lemma_char_shows_sextet(data, g, 2);
    lemma_char_shows_sextet(data, g, 3);
    lemma_word_from_sextets(group_word(data, g));
}

proof fn lemma_byte_of_word(data: Seq<u8>, i: int)
    requires
        0 <= i < data.len(),
    ensures
        data[i] == (if i % 3 == 0 {
            group_word(data, i / 3) / 65536
        } else if i % 3 == 1 {
            group_word(data, i / 3) / 256 % 256
        } else {
            group_word(data, i / 3) % 256
        }),
{
    let g = i / 3;
    let a = byte_or_zero(data, 3 * g);
    let b = byte_or_zero(data, 3 * g + 1);
    let c = byte_or_zero(data, 3 * g + 2);
    let w = a * 65536 + b * 256 + c;
    assert(w / 256 == a * 256 + b);
    assert(w / 65536 == a);
    assert(w % 256 == c);
    assert((a * 256 + b) % 256 == b);
}

/// A Base64 text reads back as the bytes that it was made of.
pub proof fn base64_reads_back(data: Seq<u8>)
    ensures
        base64_bytes(base64(data)) == data,
        base64(data).len() % 4 == 0,
{
    let t = base64(data);
    let n = data.len() as int;
    lemma_padding(data);
    assert forall|i: int| 0 <= i < n implies base64_bytes(t)[i] == data[i] by {
        lemma_shown_word(data, i / 3);
        lemma_byte_of_word(data, i);
    }
    assert(base64_bytes(t) =~= data);
}

/// The signed text is the numeral of the timestamp, the user and the token, all of
/// each, with an at sign between one and the next.
pub proof fn signed_text_holds_all(uid: Seq<char>, token: Seq<char>, ts: nat)
    ensures
        ({
            let t = signed_text(uid, token, ts);
            let n = text::decimal(ts).len() as int;
            &&& t.len() == n + uid.len() + token.len() + 2
            &&& t.take(n) == text::decimal(ts)
            &&& t[n] == '@'
            &&& t.subrange(n + 1, n + 1 + uid.len()) == uid
            &&& t[n + 1 + uid.len()] == '@'
            &&& t.skip(t.len() - token.len()) == token
        }),
{
    let t = signed_text(uid, token, ts);
    let n = text::decimal(ts).len() as int;
    assert(t.take(n) =~= text::decimal(ts));
    assert(t.subrange(n + 1, n + 1 + uid.len()) =~= uid);
    assert(t.skip(t.len() - token.len()) =~= token);
}

/// What is signed depends on all of the token: at one time and for one user, different
/// tokens are never signed as the same text.
pub proof fn signed_text_shows_token(uid: Seq<char>, a: Seq<char>, b: Seq<char>, ts: nat)
    requires
        signed_text(uid, a, ts) == signed_text(uid, b, ts),
    ensures
        a == b,
{
    signed_text_holds_all(uid, a, ts);
    signed_text_holds_all(uid, b, ts);
}

/// What is signed depends on all of the user: at one time and with one token, different
/// users are never signed as the same text.
pub proof fn signed_text_shows_user(a: Seq<char>, b: Seq<char>, token: Seq<char>, ts: nat)
    requires
        signed_text(a, token, ts) == signed_text(b, token, ts),
    ensures
        a == b,
{
    signed_text_holds_all(a, token, ts);
    signed_text_holds_all(b, token, ts);
}

/// The bytes of a signature, read as text, are the digest in lower-case hexadecimal, an
/// at sign and the numeral of the timestamp.
pub proof fn signature_reads_back(digest: Seq<u8>, ts: nat)
    ensures
        ({
            let s = vstd::utf8::decode_utf8(base64_bytes(signature_text(digest, ts)));
            let n = 2 * digest.len() as int;
            &&& s.len() > n + 1
            &&& forall|i: int|
                0 <= i < digest.len() ==> #[trigger] digest[i] == 16 * text::hex_value(s[2 * i])
                    + text::hex_value(s[2 * i + 1])
            &&& forall|j: int|
                0 <= j < n ==> text::is_digit(#[trigger] s[j]) || 'a' <= s[j] <= 'f'
            &&& s[n] == '@'
            &&& text::all_digits(s.skip(n + 1))
            &&& text::digits_value(s.skip(n + 1)) == ts
            &&& s.len() > n + 2 ==> s[n + 1] != '0'
        }),
{
    let t = stamped_digest(digest, ts);
    base64_reads_back(vstd::utf8::encode_utf8(t));
    vstd::utf8::encode_utf8_decode_utf8(t);
    let hex = text::lower_hex(digest);
    let n = hex.len() as int;
    text::lower_hex_reads_back(digest);
    text::lemma_decimal_value(ts);
    text::decimal_has_no_leading_zero(ts);
    assert(t.skip(n + 1) =~= text::decimal(ts));
    assert forall|i: int| 0 <= i < digest.len() implies #[trigger] digest[i] == 16
        * text::hex_value(t[2 * i]) + text::hex_value(t[2 * i + 1]) by {
        assert(t[2 * i] == hex[2 * i] && t[2 * i + 1] == hex[2 * i + 1]);
    }
    assert forall|j: int| 0 <= j < n implies text::is_digit(#[trigger] t[j]) || 'a' <= t[j]
        <= 'f' by {
        assert(t[j] == hex[j]);
    }
}

/// A request's signature carries the SHA-256 digest of the one text that is made of the
/// timestamp's numeral, the user and the token with an at sign between one and the
/// next, and the timestamp itself.
pub proof fn signature_signs_time_user_and_token(
    uid: Seq<char>,
    token: Seq<char>,
    ts: nat,
    plain: Seq<char>,
    n: int,
)
    requires
        0 < n,
        plain.len() == n + uid.len() + token.len() + 2,
        text::all_digits(plain.take(n)),
        text::digits_value(plain.take(n)) == ts,
        n > 1 ==> plain[0] != '0',
        plain[n] == '@',
        plain.subrange(n + 1, n + 1 + uid.len()) == uid,
        plain[n + 1 + uid.len()] == '@',
        plain.skip(n + 2 + uid.len()) == token,
    ensures
        ({
            let s = vstd::utf8::decode_utf8(base64_bytes(signature(uid, token, ts)));
            let digest = sha256_of(vstd::utf8::encode_utf8(plain))@;
            &&& s.len() > 65
            &&& forall|i: int|
                0 <= i < 32 ==> #[trigger] digest[i] == 16 * text::hex_value(s[2 * i])
                    + text::hex_value(s[2 * i + 1])
            &&& forall|j: int|
                0 <= j < 64 ==> text::is_digit(#[trigger] s[j]) || 'a' <= s[j] <= 'f'
            &&& s[64] == '@'
            &&& text::all_digits(s.skip(65))
            &&& text::digits_value(s.skip(65)) == ts
            &&& s.len() > 66 ==> s[65] != '0'
        }),
{
    text::numeral_is_unique(plain.take(n));
    assert(plain =~= plain.take(n) + seq!['@'] + uid + seq!['@'] + token) by {
        assert(forall|i: int| 0 <= i < uid.len() ==> uid[i] == plain[n + 1 + i]);
        assert(forall|i: int| 0 <= i < token.len() ==> token[i] == plain[n + 2 + uid.len() + i]);
    }
    assert(plain == signed_text(uid, token, ts));
    signature_reads_back(sha256_of(vstd::utf8::encode_utf8(plain))@, ts);
}

/// An encoded password is Base64 of the lower-case hexadecimal text of its MD5 digest:
/// its bytes, read as text, are two such digits for each byte of the digest and
/// nothing else.
pub proof fn password_encoding_reads_back(digest: Seq<u8>)
    ensures
        ({
            let s = vstd::utf8::decode_utf8(base64_bytes(password_text(digest)));
            &&& s.len() == 2 * digest.len()
            &&& forall|i: int|
                0 <= i < digest.len() ==> #[trigger] digest[i] == 16 * text::hex_value(s[2 * i])
                    + text::hex_value(s[2 * i + 1])
            &&& forall|j: int|
                0 <= j < s.len() ==> text::is_digit(#[trigger] s[j]) || 'a' <= s[j] <= 'f'
        }),
{
    let hex = text::lower_hex(digest);
    base64_reads_back(vstd::utf8::encode_utf8(hex));
    vstd::utf8::encode_utf8_decode_utf8(hex);
    text::lower_hex_reads_back(digest);
}

} // verus!
