//! Text encodings used to build request URLs and error messages: percent-encoding
//! of query values, decimal rendering of numbers, and lossy UTF-8 decoding of
//! response bodies.
use vstd::prelude::*;
use vstd::string::*;
use vstd::utf8::*;

verus! {

/// Appends one character to a string (`String::push`).
/// Trusted: the string afterwards holds its former characters followed by `c`.
#[verifier::external_body]
pub(crate) fn push_char(s: &mut String, c: char)
    ensures
        final(s)@ == old(s)@.push(c),
{
    s.push(c);
}

/// What `String::from_utf8_lossy` makes of a byte sequence.
pub uninterp spec fn lossy_utf8(bytes: Seq<u8>) -> Seq<char>;

/// Decodes bytes as UTF-8, replacing invalid sequences with U+FFFD
/// (`String::from_utf8_lossy`, then `into_owned`).
/// Trusted: the result is the named value `lossy_utf8` of the bytes, and, as the
/// std documentation says, valid UTF-8 is decoded unchanged. What replaces an
/// invalid sequence is left unsaid.
#[verifier::external_body]
pub(crate) fn utf8_lossy(bytes: &[u8]) -> (s: String)
    ensures
        s@ == lossy_utf8(bytes@),
        valid_utf8(bytes@) ==> s@ == decode_utf8(bytes@),
{
    String::from_utf8_lossy(bytes).into_owned()
}

/// Bytes that percent-encoding leaves as they are: ASCII letters, digits and `-_.~`.
pub open spec fn is_unreserved(b: u8) -> bool {
    ||| 65 <= b <= 90
    ||| 97 <= b <= 122
    ||| 48 <= b <= 57
    ||| b == 45
    ||| b == 95
    ||| b == 46
    ||| b == 126
}

/// The upper-case hexadecimal digit of a value below 16.
pub open spec fn hex_digit(n: u8) -> char
    recommends
        n < 16,
{
    if n < 10 {
        (48 + n) as char
    } else {
        (55 + n) as char
    }
}

/// The percent-encoding of one byte: the byte itself when it is unreserved,
/// otherwise `%` and its two upper-case hexadecimal digits.
pub open spec fn encode_byte(b: u8) -> Seq<char> {
    if is_unreserved(b) {
        seq![b as char]
    } else {
        seq!['%', hex_digit(b / 16), hex_digit(b % 16)]
    }
}

/// The percent-encoding of a byte sequence, byte by byte.
pub open spec fn percent_encode(bytes: Seq<u8>) -> Seq<char>
    decreases bytes.len(),
{
    if bytes.len() == 0 {
        seq![]
    } else {
        encode_byte(bytes[0]) + percent_encode(bytes.drop_first())
    }
}

/// The value of a hexadecimal digit.
pub open spec fn hex_value(c: char) -> int {
    if '0' <= c <= '9' {
        c as int - 48
    } else {
        c as int - 55
    }
}

/// Reads percent-encoded text back into bytes.
pub open spec fn percent_decode(chars: Seq<char>) -> Seq<u8>
    decreases chars.len(),
{
    if chars.len() == 0 {
        seq![]
    } else if chars[0] == '%' && chars.len() >= 3 {
        seq![(hex_value(chars[1]) * 16 + hex_value(chars[2])) as u8] + percent_decode(
            chars.skip(3),
        )
    } else {
        seq![chars[0] as u8] + percent_decode(chars.drop_first())
    }
}

/// Characters that may stand in a percent-encoded value.
pub open spec fn is_encoded_char(c: char) -> bool {
    ||| 'A' <= c <= 'Z'
    ||| 'a' <= c <= 'z'
    ||| '0' <= c <= '9'
    ||| c == '-'
    ||| c == '_'
    ||| c == '.'
    ||| c == '~'
    ||| c == '%'
}

/// The decimal digit of a value below 10.
pub open spec fn decimal_digit(d: nat) -> char {
    (48 + d) as char
}

/// The decimal rendering of a natural number, without leading zeros.
pub open spec fn decimal(n: nat) -> Seq<char>
    decreases n,
{
    if n < 10 {
        seq![decimal_digit(n)]
    } else {
        decimal(n / 10).push(decimal_digit(n % 10))
    }
}

fn is_unreserved_byte(b: u8) -> (r: bool)
    ensures
        r == is_unreserved(b),
{
    (65 <= b && b <= 90) || (97 <= b && b <= 122) || (48 <= b && b <= 57) || b == 45 || b == 95
        || b == 46 || b == 126
}

fn hex_digit_char(n: u8) -> (c: char)
    requires
        n < 16,
    ensures
        c == hex_digit(n),
{
    if n < 10 {
        (48 + n) as char
    } else {
        (55 + n) as char
    }
}

/// Percent-encodes the UTF-8 bytes of `s` for use in a URL query value: ASCII
/// letters, digits and `-_.~` stay as they are, every other byte becomes `%XX`
/// with upper-case hexadecimal digits.
pub fn url_encode(s: &str) -> (res: String)
    ensures
        res@ == percent_encode(s.spec_bytes()),
{
    let bytes = s.as_bytes();
    let mut res = String::new();
    let mut i: usize = 0;
    assert(bytes@.skip(0) =~= bytes@);
    assert(res@ + percent_encode(bytes@) =~= percent_encode(bytes@));
    while i < bytes.len()
        invariant
            i <= bytes@.len(),
            bytes@ == s.spec_bytes(),
            percent_encode(bytes@) == res@ + percent_encode(bytes@.skip(i as int)),
        decreases bytes@.len() - i,
    {
        let b = bytes[i];
        assert(bytes@.skip(i as int).drop_first() =~= bytes@.skip(i + 1));
        let ghost before = res@;
        if is_unreserved_byte(b) {
            push_char(&mut res, b as char);
            assert(res@ =~= before + encode_byte(b));
        } else {
            push_char(&mut res, '%');
            push_char(&mut res, hex_digit_char(b / 16));
            push_char(&mut res, hex_digit_char(b % 16));
            assert(res@ =~= before + encode_byte(b));
        }
        assert(before + encode_byte(b) + percent_encode(bytes@.skip(i + 1)) =~= before + (
        encode_byte(b) + percent_encode(bytes@.skip(i + 1))));
        i += 1;
    }
    assert(bytes@.skip(i as int) =~= Seq::<u8>::empty());
    assert(res@ + Seq::<char>::empty() =~= res@);
    res
}

/// Appends the decimal rendering of `n` to `s`.
pub fn push_decimal(s: &mut String, n: u32)
    ensures
        final(s)@ == old(s)@ + decimal(n as nat),
    decreases n,
{
    let ghost start = s@;
    if n >= 10 {
        push_decimal(s, n / 10);
    }
    let d: u8 = (n % 10) as u8;
    push_char(s, (48 + d) as char);
    proof {
        if n >= 10 {
            assert(s@ =~= start + decimal((n / 10) as nat).push(decimal_digit((n % 10) as nat)));
        } else {
            assert(s@ =~= start + seq![decimal_digit(n as nat)]);
        }
    }
}

/// Decoding a percent-encoding gives back the bytes that were encoded.
pub proof fn lemma_percent_decode_encode(bytes: Seq<u8>)
    ensures
        percent_decode(percent_encode(bytes)) == bytes,
    decreases bytes.len(),
{
    if bytes.len() > 0 {
        let b = bytes[0];
        let rest = bytes.drop_first();
        let e = percent_encode(bytes);
        lemma_percent_decode_encode(rest);
        if is_unreserved(b) {
            assert(e.drop_first() =~= percent_encode(rest));
            assert(e[0] == b as char);
            assert(e[0] != '%');
        } else {
            assert(e.skip(3) =~= percent_encode(rest));
            let hi = b / 16;
            let lo = b % 16;
            assert(hex_value(hex_digit(hi)) == hi);
            assert(hex_value(hex_digit(lo)) == lo);
            assert(hi * 16 + lo == b) by (nonlinear_arith)
                requires
                    hi == b / 16,
                    lo == b % 16,
            ;
        }
        assert(bytes =~= seq![b] + rest);
    }
}

/// Percent-encoding is injective: two byte sequences with the same encoding are equal.
pub proof fn lemma_percent_encode_injective(a: Seq<u8>, b: Seq<u8>)
    requires
        percent_encode(a) == percent_encode(b),
    ensures
        a == b,
{
    lemma_percent_decode_encode(a);
    lemma_percent_decode_encode(b);
}

/// Distinct strings have distinct URL encodings.
pub proof fn lemma_url_encode_injective(s1: Seq<char>, s2: Seq<char>)
    requires
        percent_encode(encode_utf8(s1)) == percent_encode(encode_utf8(s2)),
    ensures
        s1 == s2,
{
    lemma_percent_encode_injective(encode_utf8(s1), encode_utf8(s2));
    encode_utf8_decode_utf8(s1);
    encode_utf8_decode_utf8(s2);
}

/// Every character of a percent-encoding is an ASCII letter or digit, one of
/// `-_.~`, or `%`: no `&`, `=`, `?`, `#`, `/` or space can come out of it.
pub proof fn lemma_percent_encode_chars(bytes: Seq<u8>)
    ensures
        forall|i: int|
            0 <= i < percent_encode(bytes).len() ==> is_encoded_char(
                #[trigger] percent_encode(bytes)[i],
            ),
    decreases bytes.len(),
{
    if bytes.len() > 0 {
        let b = bytes[0];
        lemma_percent_encode_chars(bytes.drop_first());
        let head = encode_byte(b);
        let tail = percent_encode(bytes.drop_first());
        assert(forall|i: int| 0 <= i < head.len() ==> is_encoded_char(#[trigger] head[i]));
        assert forall|i: int| 0 <= i < percent_encode(bytes).len() implies is_encoded_char(
            #[trigger] percent_encode(bytes)[i],
        ) by {
            if i < head.len() {
                assert(percent_encode(bytes)[i] == head[i]);
            } else {
                assert(percent_encode(bytes)[i] == tail[i - head.len()]);
            }
        }
    }
}

/// Bytes that are all unreserved are encoded as themselves.
pub proof fn lemma_percent_encode_unreserved(bytes: Seq<u8>)
    requires
        forall|i: int| 0 <= i < bytes.len() ==> is_unreserved(#[trigger] bytes[i]),
    ensures
        percent_encode(bytes) == Seq::new(bytes.len(), |i: int| bytes[i] as char),
    decreases bytes.len(),
{
    if bytes.len() > 0 {
        let rest = bytes.drop_first();
        assert(is_unreserved(bytes[0]));
        assert forall|i: int| 0 <= i < rest.len() implies is_unreserved(#[trigger] rest[i]) by {
            assert(rest[i] == bytes[i + 1]);
        }
        lemma_percent_encode_unreserved(rest);
        assert(percent_encode(bytes) =~= Seq::new(bytes.len(), |i: int| bytes[i] as char));
    }
}

/// The decimal rendering of a number is a non-empty run of the digits `0` to `9`.
pub proof fn lemma_decimal_digits(n: nat)
    ensures
        decimal(n).len() > 0,
        forall|i: int| 0 <= i < decimal(n).len() ==> '0' <= #[trigger] decimal(n)[i] <= '9',
    decreases n,
{
    if n >= 10 {
        lemma_decimal_digits(n / 10);
        assert forall|i: int| 0 <= i < decimal(n).len() implies '0' <= #[trigger] decimal(n)[i]
            <= '9' by {
            if i < decimal(n / 10).len() {
                assert(decimal(n)[i] == decimal(n / 10)[i]);
            }
        }
    }
}

} // verus!
