//! Solving the server's session challenge: HOTP/TOTP over a base32 key, then a SHA-1 proof.
use vstd::prelude::*;
use vstd::slice::slice_subrange;
use vstd::string::StrSliceExecFns;
use vstd::string::StringExecFns;

use byteorder::{BigEndian, ByteOrder};
use crypto::digest::Digest;
use crypto::hmac::Hmac;
use crypto::mac::Mac;
use crypto::sha1::Sha1;
use pad::{Alignment, PadStr};
use std::time::{SystemTime, UNIX_EPOCH};

verus! {

/// Length of the standard TOTP time step, in seconds.
pub const TIME_STEP: u64 = 30;

/// Number of digits of the one-time password fed into the challenge answer.
pub const OTP_DIGITS: u8 = 6;

// ---------------------------------------------------------------------------
// Names for what the outside functions compute.
/// What `str::to_uppercase` makes of a text.
pub uninterp spec fn upper_of(s: Seq<char>) -> Seq<char>;

/// The bytes that RFC 4648 base32 decoding gives for a text.
pub uninterp spec fn base32_bytes_of(s: Seq<char>) -> Seq<u8>;

/// HMAC-SHA1 of `msg` under `key`.
pub uninterp spec fn hmac_sha1_of(key: Seq<u8>, msg: Seq<u8>) -> Seq<u8>;

/// Lower-case hex SHA-1 digest of the UTF-8 encoding of a text.
pub uninterp spec fn sha1_hex_of(s: Seq<char>) -> Seq<char>;

// ---------------------------------------------------------------------------
// The model.
/// Number of `=` characters that bring a text of `len` characters to a multiple of eight.
pub open spec fn padding_len(len: nat) -> nat {
    ((8 - (len % 8) as int) % 8) as nat
}

/// A character that RFC 4648 base32 decoding accepts (letters of either case, `2`-`7`, `=`).
pub open spec fn is_base32_char(c: char) -> bool {
    ('A' <= c && c <= 'Z') || ('a' <= c && c <= 'z') || ('2' <= c && c <= '7') || c == '='
}

pub open spec fn is_base32_text(s: Seq<char>) -> bool {
    forall|i: int| 0 <= i < s.len() ==> is_base32_char(#[trigger] s[i])
}

/// `u` is the ASCII upper-casing of `c`: a letter of `a`-`z` becomes the letter 32 code
/// points below it, in `A`-`Z`; any other character stays.
pub open spec fn is_ascii_upper_char(c: char, u: char) -> bool {
    if 'a' <= c && c <= 'z' {
        'A' <= u && u <= 'Z' && u as int + 32 == c as int
    } else {
        u == c
    }
}

/// `u` is `s` with its ASCII lower-case letters upper-cased.
pub open spec fn is_ascii_upper_of(s: Seq<char>, u: Seq<char>) -> bool {
    &&& u.len() == s.len()
    &&& forall|i: int| 0 <= i < s.len() ==> is_ascii_upper_char(s[i], #[trigger] u[i])
}

/// A text of lower-case hex digits.
pub open spec fn is_lower_hex(s: Seq<char>) -> bool {
    forall|i: int|
        0 <= i < s.len() ==> ('0' <= #[trigger] s[i] && s[i] <= '9') || ('a' <= s[i] && s[i]
            <= 'f')
}

/// The challenge upper-cased and padded with `=` according to its own length.
pub open spec fn padded_key(key: Seq<char>) -> Seq<char> {
    upper_of(key) + Seq::new(padding_len(key.len()), |i: int| '=')
}

pub open spec fn byte_at(n: u64, unit: nat) -> u8 {
    ((n as nat / unit) % 256) as u8
}

/// `n` as eight big-endian bytes.
pub open spec fn be_bytes_u64(n: u64) -> Seq<u8> {
    seq![
        byte_at(n, 0x100000000000000),
        byte_at(n, 0x1000000000000),
        byte_at(n, 0x10000000000),
        byte_at(n, 0x100000000),
        byte_at(n, 0x1000000),
        byte_at(n, 0x10000),
        byte_at(n, 0x100),
        byte_at(n, 1),
    ]
}

/// The big-endian unsigned value of the first four bytes.
pub open spec fn be_u32(b: Seq<u8>) -> int {
    b[0] * 0x1000000 + b[1] * 0x10000 + b[2] * 0x100 + b[3]
}

/// RFC 4226 dynamic truncation: four bytes at the offset named by the low nibble of the
/// last byte, read big-endian, top bit cleared.
pub open spec fn truncated_code(mac: Seq<u8>) -> int {
    let offset = (mac[mac.len() - 1] % 16) as int;
    be_u32(mac.subrange(offset, offset + 4)) % 0x80000000
}

pub open spec fn digit_char(d: nat) -> char {
    seq!['0', '1', '2', '3', '4', '5', '6', '7', '8', '9'][d as int]
}

/// Decimal rendering of `n`, without leading zeros.
pub open spec fn decimal(n: nat) -> Seq<char>
    decreases n,
{
    if n < 10 {
        seq![digit_char(n)]
    } else {
        decimal(n / 10).push(digit_char(n % 10))
    }
}

pub open spec fn is_digit_text(s: Seq<char>) -> bool {
    forall|i: int| 0 <= i < s.len() ==> '0' <= #[trigger] s[i] && s[i] <= '9'
}

/// The last `n` characters of `s` (all of `s` when it is shorter).
pub open spec fn rightmost(s: Seq<char>, n: nat) -> Seq<char> {
    if s.len() > n {
        s.subrange(s.len() - n, s.len() as int)
    } else {
        s
    }
}

/// `s` with `'0'` in front up to `width` characters.
pub open spec fn zero_padded(s: Seq<char>, width: nat) -> Seq<char> {
    Seq::new((width - s.len()) as nat, |i: int| '0') + s
}

/// The one-time password for a truncated code: its rightmost `digits` decimal digits,
/// zero-padded on the left to exactly `digits` characters.
pub open spec fn otp_text(code: nat, digits: nat) -> Seq<char> {
    zero_padded(rightmost(decimal(code), digits), digits)
}

/// HOTP of a base32 challenge at `counter`; `None` when the padded key is not base32 text.
pub open spec fn hotp_value(key: Seq<char>, counter: u64, digits: nat) -> Option<Seq<char>> {
    let padded = padded_key(key);
    if is_base32_text(padded) {
        let mac = hmac_sha1_of(base32_bytes_of(padded), be_bytes_u64(counter));
        Some(otp_text(truncated_code(mac) as nat, digits))
    } else {
        None
    }
}

/// The time window that a Unix time falls in.
pub open spec fn window_of(unix_secs: u64) -> u64 {
    (unix_secs / 30) as u64
}

/// The challenge answer for the window `counter`: SHA-1 hex of the TOTP code followed by the
/// private hash.
pub open spec fn answer_value(private_hash: Seq<char>, challenge: Seq<char>, counter: u64) -> Option<
    Seq<char>,
> {
    match hotp_value(challenge, counter, 6) {
        Some(otp) => Some(sha1_hex_of(otp + private_hash)),
        None => None,
    }
}

/// The challenge answer at the Unix time `unix_secs`.
pub open spec fn answer_at(private_hash: Seq<char>, challenge: Seq<char>, unix_secs: u64) -> Option<
    Seq<char>,
> {
    answer_value(private_hash, challenge, window_of(unix_secs))
}

/// Whether a challenge can be answered at all (its padded form is base32 text).
pub open spec fn challenge_is_answerable(challenge: Seq<char>) -> bool {
    is_base32_text(padded_key(challenge))
}

// ---------------------------------------------------------------------------
// Trusted calls.
/// Relies on `str::to_uppercase`: the result depends on the characters alone, and on ASCII
/// letters, digits and `=` it maps `a`-`z` to `A`-`Z` and keeps every other character.
#[verifier::external_body]
fn uppercase(s: &str) -> (r: String)
    ensures
        r@ == upper_of(s@),
        is_base32_text(s@) ==> is_ascii_upper_of(s@, r@),
{
    s.to_uppercase()
}

/// Relies on `base32::decode` with the RFC 4648 alphabet: it returns `None` exactly when a
/// character is none of `A`-`Z`, `a`-`z`, `2`-`7` and `=`.
#[verifier::external_body]
fn base32_decode(s: &str) -> (r: Option<Vec<u8>>)
    ensures
        r is Some <==> is_base32_text(s@),
        r matches Some(bytes) ==> bytes@ == base32_bytes_of(s@),
{
    base32::decode(base32::Alphabet::RFC4648 { padding: true }, s)
}

/// Relies on rust-crypto's `Hmac` over `Sha1`: the code is the 20-byte SHA-1 HMAC.
#[verifier::external_body]
fn hmac_sha1(key: &[u8], msg: &[u8]) -> (r: Vec<u8>)
    ensures
        r@ == hmac_sha1_of(key@, msg@),
        r@.len() == 20,
{
    let mut mac = Hmac::new(Sha1::new(), key);
    mac.input(msg);
    mac.result().code().to_vec()
}

/// Relies on rust-crypto's `Sha1::result_str`: 40 lower-case hex digits of the digest.
#[verifier::external_body]
fn sha1_hex(s: &str) -> (r: String)
    ensures
        r@ == sha1_hex_of(s@),
        r@.len() == 40,
        is_lower_hex(r@),
{
    let mut hasher = Sha1::new();
    hasher.input(s.as_bytes());
    hasher.result_str()
}

/// Relies on byteorder's `BigEndian::write_u64`: the eight bytes of `n`, most significant first.
#[verifier::external_body]
fn counter_bytes(n: u64) -> (r: Vec<u8>)
    ensures
        r@ == be_bytes_u64(n),
{
    let mut buf = vec![0u8; 8];
    BigEndian::write_u64(&mut buf, n);
    buf
}

/// Relies on byteorder's `BigEndian::read_u32`: the four bytes read most significant first.
#[verifier::external_body]
fn read_be_u32(b: &[u8]) -> (r: u32)
    requires
        b@.len() == 4,
    ensures
        r as int == be_u32(b@),
{
    BigEndian::read_u32(b)
}

/// Relies on `ToString` through the `Display` impl of `u32`: its decimal digits.
#[verifier::external_body]
fn decimal_text(n: u32) -> (r: String)
    ensures
        r@ == decimal(n as nat),
{
    n.to_string()
}

/// Relies on `pad::PadStr::pad`, right-aligned with `'0'`: a text of ASCII digits (one
/// column each) no wider than `width` gets zeros in front up to `width` characters.
#[verifier::external_body]
fn zero_pad(s: &str, width: usize) -> (r: String)
    requires
        is_digit_text(s@),
        s@.len() <= width,
    ensures
        r@ == zero_padded(s@, width as nat),
{
    s.pad(width, '0', Alignment::Right, true)
}

/// Relies on `SystemTime::now`: whole seconds since the Unix epoch, `None` before it.
#[verifier::external_body]
pub(crate) fn unix_seconds() -> (r: Option<u64>) {
    SystemTime::now().duration_since(UNIX_EPOCH).ok().map(|d| d.as_secs())
}

// ---------------------------------------------------------------------------
// Lemmas.
proof fn lemma_decimal_is_digits(n: nat)
    ensures
        is_digit_text(decimal(n)),
        decimal(n).len() >= 1,
    decreases n,
{
    if n >= 10 {
        lemma_decimal_is_digits(n / 10);
    }
}

/// Padding to the next multiple of eight appends fewer than eight characters, and none to a
/// text whose length is already a multiple of eight.
pub proof fn lemma_padding_aligns(len: nat)
    ensures
        (len + padding_len(len)) % 8 == 0,
        padding_len(len) < 8,
        len % 8 == 0 ==> padding_len(len) == 0,
{
}

/// Within one 30-second window the challenge answer does not change.
pub proof fn lemma_answer_fixed_within_window(
    private_hash: Seq<char>,
    challenge: Seq<char>,
    t1: u64,
    t2: u64,
)
    requires
        t1 / 30 == t2 / 30,
    ensures
        answer_at(private_hash, challenge, t1) == answer_at(private_hash, challenge, t2),
{
}

/// The one-time password always has exactly the requested number of digits.
pub proof fn lemma_otp_length(code: nat, digits: nat)
    ensures
        otp_text(code, digits).len() == digits,
        is_digit_text(otp_text(code, digits)),
{
    lemma_decimal_is_digits(code);
    let t = rightmost(decimal(code), digits);
    assert(t.len() <= digits);
    assert(is_digit_text(t));
    let p = otp_text(code, digits);
    assert forall|i: int| 0 <= i < p.len() implies '0' <= #[trigger] p[i] && p[i] <= '9' by {
        if i >= digits - t.len() {
            assert(p[i] == t[i - (digits - t.len())]);
        }
    }
}

/// The last `d` decimal digits of `v`, that is `v mod 10^d` written with exactly `d` digits
/// (leading zeros included).
pub open spec fn last_digits(v: nat, d: nat) -> Seq<char>
    decreases d,
{
    if d == 0 {
        Seq::empty()
    } else {
        last_digits(v / 10, (d - 1) as nat).push(digit_char(v % 10))
    }
}

proof fn lemma_last_digits_of_zero(d: nat)
    ensures
        last_digits(0, d) == Seq::new(d, |i: int| '0'),
    decreases d,
{
    if d > 0 {
        lemma_last_digits_of_zero((d - 1) as nat);
        assert(last_digits(0, d) =~= Seq::new(d, |i: int| '0'));
    }
}

/// The one-time password is the truncated code's last `digits` decimal digits, zero-padded:
/// the code mod 10^digits written with exactly `digits` digits.
pub proof fn lemma_otp_is_last_digits(code: nat, digits: nat)
    ensures
        otp_text(code, digits) == last_digits(code, digits),
    decreases code,
{
    lemma_decimal_is_digits(code);
    let s = decimal(code);
    if digits == 0 {
        assert(rightmost(s, 0) =~= Seq::<char>::empty());
        assert(otp_text(code, 0) =~= last_digits(code, 0));
    } else if code < 10 {
        lemma_last_digits_of_zero((digits - 1) as nat);
        assert(otp_text(code, digits) =~= last_digits(code, digits));
    } else {
        lemma_otp_is_last_digits(code / 10, (digits - 1) as nat);
        lemma_decimal_is_digits(code / 10);
        let p = decimal(code / 10);
        let c = digit_char(code % 10);
        assert(s == p.push(c));
        assert(rightmost(s, digits) =~= rightmost(p, (digits - 1) as nat).push(c));
        let t = rightmost(p, (digits - 1) as nat);
        assert(zero_padded(t.push(c), digits) =~= zero_padded(t, (digits - 1) as nat).push(c));
    }
}

/// Across two windows whose one-time passwords differ, the answers differ too, unless SHA-1
/// collides on exactly those two inputs.
pub proof fn lemma_answer_changes_with_code(
    private_hash: Seq<char>,
    challenge: Seq<char>,
    t1: u64,
    t2: u64,
)
    requires
        hotp_value(challenge, window_of(t1), 6) is Some,
        hotp_value(challenge, window_of(t2), 6) is Some,
        hotp_value(challenge, window_of(t1), 6) != hotp_value(challenge, window_of(t2), 6),
        sha1_hex_of(hotp_value(challenge, window_of(t1), 6)->0 + private_hash) == sha1_hex_of(
            hotp_value(challenge, window_of(t2), 6)->0 + private_hash,
        ) ==> hotp_value(challenge, window_of(t1), 6)->0 + private_hash == hotp_value(
            challenge,
            window_of(t2),
            6,
        )->0 + private_hash,
    ensures
        answer_at(private_hash, challenge, t1) != answer_at(private_hash, challenge, t2),
{
    let o1 = hotp_value(challenge, window_of(t1), 6)->0;
    let o2 = hotp_value(challenge, window_of(t2), 6)->0;
    let mac1 = hmac_sha1_of(base32_bytes_of(padded_key(challenge)), be_bytes_u64(window_of(t1)));
    let mac2 = hmac_sha1_of(base32_bytes_of(padded_key(challenge)), be_bytes_u64(window_of(t2)));
    lemma_otp_length(truncated_code(mac1) as nat, 6);
    lemma_otp_length(truncated_code(mac2) as nat, 6);
    if o1 + private_hash == o2 + private_hash {
        assert(o1 =~= (o1 + private_hash).subrange(0, 6));
        assert(o2 =~= (o2 + private_hash).subrange(0, 6));
    }
}

// ---------------------------------------------------------------------------
// Executable functions.
/// How many `=` characters to append to a base32 text of `len` characters.
pub fn base32_padding(len: usize) -> (r: usize)
    ensures
        r == padding_len(len as nat),
        r < 8,
        (len + r) % 8 == 0,
{
    (8 - len % 8) % 8
}

/// The challenge upper-cased and right-padded with `=` to a multiple of eight characters
/// (counted on the challenge as given).
pub fn pad_challenge(key: &str) -> (r: String)
    ensures
        r@ == padded_key(key@),
        is_base32_text(key@) ==> is_base32_text(r@) && r@.len() % 8 == 0,
{
    let mut out = uppercase(key);
    let n = base32_padding(key.unicode_len());
    let ghost upper = out@;
    let mut i: usize = 0;
    while i < n
        invariant
            i <= n,
            n == padding_len(key@.len()),
            out@ == upper_of(key@) + Seq::new(i as nat, |j: int| '='),
            upper == upper_of(key@),
            is_base32_text(key@) ==> is_ascii_upper_of(key@, upper),
        decreases n - i,
    {
        proof {
            reveal_strlit("=");
        }
        out.append("=");
        i += 1;
        assert(Seq::new(i as nat, |j: int| '=') =~= Seq::new((i - 1) as nat, |j: int| '=').push('='));
        assert(out@ =~= upper_of(key@) + Seq::new(i as nat, |j: int| '='));
    }
    proof {
        lemma_padding_aligns(key@.len());
        if is_base32_text(key@) {
            assert forall|j: int| 0 <= j < out@.len() implies is_base32_char(#[trigger] out@[j]) by {
                if j >= upper.len() {
                    assert(out@[j] == '=');
                } else {
                    assert(out@[j] == upper[j]);
                    assert(is_base32_char(key@[j]));
                    assert(is_ascii_upper_char(key@[j], upper[j]));
                }
            }
        }
    }
    out
}

/// RFC 4226 dynamic truncation of an HMAC.
pub fn dynamic_truncation(mac: &[u8]) -> (r: u32)
    requires
        mac@.len() >= 20,
    ensures
        r as int == truncated_code(mac@),
{
    let last = mac[mac.len() - 1];
    let offset = (last & 0x0f) as usize;
    assert(last & 0x0f == last % 16) by (bit_vector);
    let word = read_be_u32(slice_subrange(mac, offset, offset + 4));
    let code = word & 0x7fff_ffff;
    assert(word & 0x7fff_ffff == word % 0x8000_0000) by (bit_vector);
    code
}

/// The one-time password for a truncated code: its rightmost `digits` decimal digits,
/// left-padded with `'0'` to exactly `digits` characters.
pub fn otp_from_code(code: u32, digits: u8) -> (r: String)
    ensures
        r@ == otp_text(code as nat, digits as nat),
        r@.len() == digits,
{
    proof {
        lemma_decimal_is_digits(code as nat);
        lemma_otp_length(code as nat, digits as nat);
    }
    let text = decimal_text(code);
    let len = text.as_str().unicode_len();
    let width = digits as usize;
    let tail = if len > width {
        text.as_str().substring_char(len - width, len)
    } else {
        text.as_str()
    };
    assert(tail@ == rightmost(decimal(code as nat), digits as nat));
    assert(is_digit_text(tail@));
    zero_pad(tail, width)
}

/// The one-time password for an HMAC: dynamic truncation, then `digits` decimal digits.
pub fn otp_from_mac(mac: &[u8], digits: u8) -> (r: String)
    requires
        mac@.len() >= 20,
    ensures
        r@ == otp_text(truncated_code(mac@) as nat, digits as nat),
        r@.len() == digits,
{
    let code = dynamic_truncation(mac);
    otp_from_code(code, digits)
}

/// HOTP of a base32 key: `None` exactly when the padded key is not base32 text, so never for
/// a base32 key, whatever its length.
pub fn hotp(key: String, counter: u64, digits: u8) -> (r: Option<String>)
    ensures
        is_base32_text(key@) ==> r is Some,
        r is Some <==> hotp_value(key@, counter, digits as nat) is Some,
        r matches Some(otp) ==> hotp_value(key@, counter, digits as nat) == Some(otp@),
{
    let padded = pad_challenge(key.as_str());
    match base32_decode(padded.as_str()) {
        None => None,
        Some(secret) => {
            let msg = counter_bytes(counter);
            let mac = hmac_sha1(secret.as_slice(), msg.as_slice());
            Some(otp_from_mac(mac.as_slice(), digits))
        },
    }
}

/// TOTP of a base32 key at the Unix time `unix_secs`: HOTP over its 30-second window.
pub fn totp_at(key: String, unix_secs: u64) -> (r: Option<String>)
    ensures
        is_base32_text(key@) ==> r is Some,
        r is Some <==> hotp_value(key@, window_of(unix_secs), 6) is Some,
        r matches Some(otp) ==> hotp_value(key@, window_of(unix_secs), 6) == Some(otp@),
{
    hotp(key, unix_secs / TIME_STEP, OTP_DIGITS)
}

/// TOTP of a base32 key now. `None` when the key is not base32 text or the clock reads
/// before the Unix epoch.
pub fn totp(key: String) -> (r: Option<String>)
    ensures
        !challenge_is_answerable(key@) ==> r is None,
        r matches Some(otp) ==> exists|t: u64| hotp_value(key@, window_of(t), 6) == Some(otp@),
{
    match unix_seconds() {
        Some(now) => totp_at(key, now),
        None => None,
    }
}

/// The challenge answer at the Unix time `unix_secs`: SHA-1 hex of the TOTP code followed by
/// the private hash. `None` exactly when the challenge is not base32 text.
pub fn answer_challenge_at(client_private_hash: String, challenge: String, unix_secs: u64) -> (r:
    Option<String>)
    ensures
        r is Some <==> challenge_is_answerable(challenge@),
        is_base32_text(challenge@) ==> r is Some,
        r matches Some(answer) ==> answer_at(client_private_hash@, challenge@, unix_secs) == Some(
            answer@,
        ),
        r matches Some(answer) ==> answer@.len() == 40 && is_lower_hex(answer@),
{
    match totp_at(challenge, unix_secs) {
        None => None,
        Some(code) => {
            let text = code.concat(client_private_hash.as_str());
            Some(sha1_hex(text.as_str()))
        },
    }
}

/// The challenge answer now. `None` when the challenge is not base32 text or the clock reads
/// before the Unix epoch.
pub fn answer_challenge(client_private_hash: String, challenge: String) -> (r: Option<String>)
    ensures
        !challenge_is_answerable(challenge@) ==> r is None,
        r matches Some(answer) ==> exists|t: u64|
            answer_at(client_private_hash@, challenge@, t) == Some(#[trigger] answer@),
        r matches Some(answer) ==> answer@.len() == 40 && is_lower_hex(answer@),
{
    match unix_seconds() {
        Some(now) => answer_challenge_at(client_private_hash, challenge, now),
        None => None,
    }
}

} // verus!
