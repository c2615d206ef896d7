use vstd::prelude::*;
use crate::text::push_char;
use vstd::utf8::encode_utf8;

verus! {

/// The character code of the base64 digit `v` (0..63) in the standard
/// alphabet: `A`-`Z`, `a`-`z`, `0`-`9`, `+`, `/`.
pub open spec fn digit_code(v: int) -> int {
    if v < 26 {
        65 + v
    } else if v < 52 {
        97 + (v - 26)
    } else if v < 62 {
        48 + (v - 52)
    } else if v == 62 {
        43
    } else {
        47
    }
}

/// The base64 digit `v` as a character.
pub open spec fn digit(v: int) -> char {
    digit_code(v) as char
}

/// Standard base64 with `=` padding: every group of three bytes becomes four
/// digits of six bits each, and a final group of one or two bytes is padded.
pub open spec fn base64_of(bytes: Seq<u8>) -> Seq<char>
    decreases bytes.len(),
{
    if bytes.len() == 0 {
        seq![]
    } else if bytes.len() == 1 {
        let a = bytes[0] as int;
        seq![digit(a / 4), digit((a % 4) * 16), '=', '=']
    } else if bytes.len() == 2 {
        let a = bytes[0] as int;
        let b = bytes[1] as int;
        seq![digit(a / 4), digit((a % 4) * 16 + b / 16), digit((b % 16) * 4), '=']
    } else {
        let a = bytes[0] as int;
        let b = bytes[1] as int;
        let c = bytes[2] as int;
        seq![digit(a / 4), digit((a % 4) * 16 + b / 16), digit((b % 16) * 4 + c / 64), digit(c % 64)]
            + base64_of(bytes.skip(3))
    }
}

/// A character that can appear in standard base64 text.
pub open spec fn is_base64_char(c: char) -> bool {
    ||| 'A' <= c <= 'Z'
    ||| 'a' <= c <= 'z'
    ||| '0' <= c <= '9'
    ||| c == '+'
    ||| c == '/'
    ||| c == '='
}

fn digit_char(v: u8) -> (c: char)
    requires
        v < 64,
    ensures
        c == digit(v as int),
{
    let code: u8 = if v < 26 {
        65 + v
    } else if v < 52 {
        71 + v
    } else if v < 62 {
        v - 4
    } else if v == 62 {
        43
    } else {
        47
    };
    code as char
}

/// Encodes the UTF-8 bytes of `data` in standard base64 with padding.
pub fn base64_encode(data: &str) -> (r: String)
    ensures
        r@ == base64_of(encode_utf8(data@)),
        r@.len() == 4 * ((encode_utf8(data@).len() + 2) / 3),
        forall|k: int| 0 <= k < r@.len() ==> is_base64_char(#[trigger] r@[k]),
{
    let bytes = data.as_bytes();
    let n = bytes.len();
    let mut out = String::new();
    let mut i: usize = 0;
    proof {
        assert(bytes@.skip(0) =~= bytes@);
    }
    while n - i >= 3
        invariant
            n == bytes@.len(),
            i <= n,
            base64_of(bytes@) == out@ + base64_of(bytes@.skip(i as int)),
        decreases n - i,
    {
        let a = bytes[i];
        let b = bytes[i + 1];
        let c = bytes[i + 2];
        let ghost rest = bytes@.skip(i as int);
        let ghost before = out@;
        assert(rest[0] == a && rest[1] == b && rest[2] == c);
        assert(rest.skip(3) =~= bytes@.skip(i + 3));
        push_char(&mut out, digit_char(a / 4));
        push_char(&mut out, digit_char((a % 4) * 16 + b / 16));
        push_char(&mut out, digit_char((b % 16) * 4 + c / 64));
        push_char(&mut out, digit_char(c % 64));
        proof {
            let g = seq![
                digit(a as int / 4),
                digit((a as int % 4) * 16 + b as int / 16),
                digit((b as int % 16) * 4 + c as int / 64),
                digit(c as int % 64),
            ];
            assert(base64_of(rest) == g + base64_of(rest.skip(3)));
            assert(out@ =~= before + g);
            assert(before + base64_of(rest) =~= out@ + base64_of(bytes@.skip(i + 3)));
        }
        i = i + 3;
    }
    let ghost before = out@;
    let ghost rest = bytes@.skip(i as int);
    if n - i == 1 {
        let a = bytes[i];
        assert(rest[0] == a);
        push_char(&mut out, digit_char(a / 4));
        push_char(&mut out, digit_char((a % 4) * 16));
        push_char(&mut out, '=');
        push_char(&mut out, '=');
        assert(out@ =~= before + base64_of(rest));
    } else if n - i == 2 {
        let a = bytes[i];
        let b = bytes[i + 1];
        assert(rest[0] == a && rest[1] == b);
        push_char(&mut out, digit_char(a / 4));
        push_char(&mut out, digit_char((a % 4) * 16 + b / 16));
        push_char(&mut out, digit_char((b % 16) * 4));
        push_char(&mut out, '=');
        assert(out@ =~= before + base64_of(rest));
    } else {
        assert(out@ =~= before + base64_of(rest));
    }
    proof {
        lemma_base64_length(bytes@);
        lemma_base64_alphabet(bytes@);
    }
    out
}

/// Base64 text has four characters for every started group of three bytes.
pub proof fn lemma_base64_length(bytes: Seq<u8>)
    ensures
        base64_of(bytes).len() == 4 * ((bytes.len() + 2) / 3),
    decreases bytes.len(),
{
    if bytes.len() >= 3 {
        lemma_base64_length(bytes.skip(3));
    }
}

proof fn lemma_digit_in_alphabet(v: int)
    requires
        0 <= v < 64,
    ensures
        is_base64_char(digit(v)),
{
}

/// Base64 text consists of alphabet characters and `=` only.
pub proof fn lemma_base64_alphabet(bytes: Seq<u8>)
    ensures
        forall|k: int| 0 <= k < base64_of(bytes).len() ==> is_base64_char(#[trigger] base64_of(bytes)[k]),
    decreases bytes.len(),
{
    if bytes.len() == 0 {
    } else if bytes.len() == 1 {
        let a = bytes[0] as int;
        lemma_digit_in_alphabet(a / 4);
        lemma_digit_in_alphabet((a % 4) * 16);
    } else if bytes.len() == 2 {
        let a = bytes[0] as int;
        let b = bytes[1] as int;
        lemma_digit_in_alphabet(a / 4);
        lemma_digit_in_alphabet((a % 4) * 16 + b / 16);
        lemma_digit_in_alphabet((b % 16) * 4);
    } else {
        let a = bytes[0] as int;
        let b = bytes[1] as int;
        let c = bytes[2] as int;
        lemma_digit_in_alphabet(a / 4);
        lemma_digit_in_alphabet((a % 4) * 16 + b / 16);
        lemma_digit_in_alphabet((b % 16) * 4 + c / 64);
        lemma_digit_in_alphabet(c % 64);
        lemma_base64_alphabet(bytes.skip(3));
        let g = seq![digit(a / 4), digit((a % 4) * 16 + b / 16), digit((b % 16) * 4 + c / 64), digit(c % 64)];
        assert forall|k: int| 0 <= k < base64_of(bytes).len() implies is_base64_char(#[trigger] base64_of(bytes)[k]) by {
            if k >= 4 {
                assert(base64_of(bytes)[k] == base64_of(bytes.skip(3))[k - 4]);
            }
        }
    }
}

proof fn lemma_digit_injective(v: int, w: int)
    requires
        0 <= v < 64,
        0 <= w < 64,
        digit(v) == digit(w),
    ensures
        v == w,
{
    assert(digit(v) as int == digit_code(v));
    assert(digit(w) as int == digit_code(w));
}

proof fn lemma_digit_not_padding(v: int)
    requires
        0 <= v < 64,
    ensures
        digit(v) != '=',
{
    assert(digit(v) as int == digit_code(v));
}

proof fn lemma_sextets_determine_bytes(a: int, b: int, c: int, x: int, y: int, z: int)
    requires
        0 <= a < 256,
        0 <= b < 256,
        0 <= c < 256,
        0 <= x < 256,
        0 <= y < 256,
        0 <= z < 256,
        a / 4 == x / 4,
        (a % 4) * 16 + b / 16 == (x % 4) * 16 + y / 16,
        (b % 16) * 4 + c / 64 == (y % 16) * 4 + z / 64,
        c % 64 == z % 64,
    ensures
        a == x,
        b == y,
        c == z,
{
}

proof fn lemma_sextet_bounds(a: int, b: int, c: int)
    requires
        0 <= a < 256,
        0 <= b < 256,
        0 <= c < 256,
    ensures
        0 <= a / 4 < 64,
        0 <= (a % 4) * 16 + b / 16 < 64,
        0 <= (b % 16) * 4 + c / 64 < 64,
        0 <= c % 64 < 64,
{
}

proof fn lemma_base64_head(x: Seq<u8>)
    requires
        x.len() > 0,
    ensures
        base64_of(x)[0] == digit(x[0] as int / 4),
        x.len() == 1 ==> {
            &&& base64_of(x)[1] == digit((x[0] as int % 4) * 16)
            &&& base64_of(x)[2] == '='
            &&& base64_of(x)[3] == '='
        },
        x.len() == 2 ==> {
            &&& base64_of(x)[1] == digit((x[0] as int % 4) * 16 + x[1] as int / 16)
            &&& base64_of(x)[2] == digit((x[1] as int % 16) * 4)
            &&& base64_of(x)[3] == '='
        },
        x.len() >= 3 ==> {
            &&& base64_of(x)[1] == digit((x[0] as int % 4) * 16 + x[1] as int / 16)
            &&& base64_of(x)[2] == digit((x[1] as int % 16) * 4 + x[2] as int / 64)
            &&& base64_of(x)[3] == digit(x[2] as int % 64)
            &&& base64_of(x).skip(4) == base64_of(x.skip(3))
        },
{
    if x.len() >= 3 {
        let a = x[0] as int;
        let b = x[1] as int;
        let c = x[2] as int;
        let g = seq![digit(a / 4), digit((a % 4) * 16 + b / 16), digit((b % 16) * 4 + c / 64), digit(c % 64)];
        assert(base64_of(x) == g + base64_of(x.skip(3)));
        assert((g + base64_of(x.skip(3))).skip(4) =~= base64_of(x.skip(3)));
    }
}

/// Different byte sequences have different base64 texts.
pub proof fn lemma_base64_injective(x: Seq<u8>, y: Seq<u8>)
    requires
        base64_of(x) == base64_of(y),
    ensures
        x == y,
    decreases x.len(),
{
    let bx = base64_of(x);
    let by = base64_of(y);
    lemma_base64_length(x);
    lemma_base64_length(y);
    let (a, b, c) = (
        if x.len() > 0 { x[0] as int } else { 0 },
        if x.len() > 1 { x[1] as int } else { 0 },
        if x.len() > 2 { x[2] as int } else { 0 },
    );
    let (p, q, r) = (
        if y.len() > 0 { y[0] as int } else { 0 },
        if y.len() > 1 { y[1] as int } else { 0 },
        if y.len() > 2 { y[2] as int } else { 0 },
    );
    lemma_sextet_bounds(a, b, c);
    lemma_sextet_bounds(p, q, r);
    if x.len() == 0 || y.len() == 0 {
        assert(x.len() == 0 && y.len() == 0);
        assert(x =~= y);
    } else {
        // the first four characters agree
        lemma_base64_head(x);
        lemma_base64_head(y);
        lemma_digit_injective(a / 4, p / 4);
        if x.len() >= 3 && y.len() >= 3 {
            lemma_digit_injective((a % 4) * 16 + b / 16, (p % 4) * 16 + q / 16);
            lemma_digit_injective((b % 16) * 4 + c / 64, (q % 16) * 4 + r / 64);
            lemma_digit_injective(c % 64, r % 64);
            lemma_sextets_determine_bytes(a, b, c, p, q, r);
            lemma_base64_injective(x.skip(3), y.skip(3));
            assert(x =~= y) by {
                assert forall|i: int| 0 <= i < x.len() implies x[i] == y[i] by {
                    if i >= 3 {
                        assert(x[i] == x.skip(3)[i - 3]);
                        assert(y[i] == y.skip(3)[i - 3]);
                    }
                }
            }
        } else if x.len() >= 3 {
            // y is padded at its fourth character, x is not
            lemma_digit_not_padding(c % 64);
        } else if y.len() >= 3 {
            lemma_digit_not_padding(r % 64);
        } else if x.len() == 1 && y.len() == 1 {
            lemma_digit_injective((a % 4) * 16, (p % 4) * 16);
            lemma_sextets_determine_bytes(a, 0, 0, p, 0, 0);
            assert(x =~= y);
        } else if x.len() == 2 && y.len() == 2 {
            lemma_digit_injective((a % 4) * 16 + b / 16, (p % 4) * 16 + q / 16);
            lemma_digit_injective((b % 16) * 4, (q % 16) * 4);
            lemma_sextets_determine_bytes(a, b, 0, p, q, 0);
            assert(x =~= y);
        } else if x.len() == 1 {
            // x is padded at its third character, y is not
            lemma_digit_not_padding((q % 16) * 4);
        } else {
            lemma_digit_not_padding((b % 16) * 4);
        }
    }
}

/// The base64 digits are the standard alphabet: `A`-`Z` for 0 to 25, `a`-`z`
/// for 26 to 51, `0`-`9` for 52 to 61, then `+` and `/`.
pub proof fn lemma_digit_is_standard_alphabet(v: int)
    requires
        0 <= v < 64,
    ensures
        v < 26 ==> digit(v) == (('A' as int) + v) as char,
        26 <= v < 52 ==> digit(v) == (('a' as int) + (v - 26)) as char,
        52 <= v < 62 ==> digit(v) == (('0' as int) + (v - 52)) as char,
        v == 62 ==> digit(v) == '+',
        v == 63 ==> digit(v) == '/',
{
}

proof fn lemma_group_value(a: int, b: int, c: int)
    requires
        0 <= a < 256,
        0 <= b < 256,
        0 <= c < 256,
    ensures
        ({
            let n = a * 65536 + b * 256 + c;
            &&& n / 262144 == a / 4
            &&& (n / 4096) % 64 == (a % 4) * 16 + b / 16
            &&& (n / 64) % 64 == (b % 16) * 4 + c / 64
            &&& n % 64 == c % 64
        }),
{
    let n = a * 65536 + b * 256 + c;
    assert(n / 262144 == a / 4) by (nonlinear_arith)
        requires 0 <= a < 256, 0 <= b < 256, 0 <= c < 256, n == a * 65536 + b * 256 + c;
    assert((n / 4096) % 64 == (a % 4) * 16 + b / 16) by (nonlinear_arith)
        requires 0 <= a < 256, 0 <= b < 256, 0 <= c < 256, n == a * 65536 + b * 256 + c;
    assert((n / 64) % 64 == (b % 16) * 4 + c / 64) by (nonlinear_arith)
        requires 0 <= a < 256, 0 <= b < 256, 0 <= c < 256, n == a * 65536 + b * 256 + c;
    assert(n % 64 == c % 64) by (nonlinear_arith)
        requires 0 <= a < 256, 0 <= b < 256, 0 <= c < 256, n == a * 65536 + b * 256 + c;
}

/// The 24-bit value of the group of (up to) three bytes starting at byte
/// `3 * k`, missing bytes counting as zero.
pub open spec fn group_value(bytes: Seq<u8>, k: int) -> int {
    let i = 3 * k;
    bytes[i] as int * 65536
        + (if i + 1 < bytes.len() { bytes[i + 1] as int } else { 0 }) * 256
        + (if i + 2 < bytes.len() { bytes[i + 2] as int } else { 0 })
}

/// Base64 as RFC 4648 defines it: the `k`-th group of three bytes, read as a
/// 24-bit number, gives characters `4k` to `4k + 3`, one digit for each six
/// bits from the most significant; where the group has only one or two bytes,
/// the digits that would come only from missing bytes are replaced by `=`.
pub proof fn lemma_base64_encodes_24_bit_groups(bytes: Seq<u8>, k: int)
    requires
        0 <= k,
        3 * k < bytes.len(),
    ensures
        ({
            let n = group_value(bytes, k);
            let out = base64_of(bytes);
            &&& out[4 * k] == digit(n / 262144)
            &&& out[4 * k + 1] == digit((n / 4096) % 64)
            &&& out[4 * k + 2] == if 3 * k + 1 < bytes.len() { digit((n / 64) % 64) } else { '=' }
            &&& out[4 * k + 3] == if 3 * k + 2 < bytes.len() { digit(n % 64) } else { '=' }
        }),
    decreases k,
{
    if k == 0 {
        lemma_base64_head(bytes);
        let a = bytes[0] as int;
        let b = if 1 < bytes.len() { bytes[1] as int } else { 0 };
        let c = if 2 < bytes.len() { bytes[2] as int } else { 0 };
        lemma_group_value(a, b, c);
        assert(group_value(bytes, 0) == a * 65536 + b * 256 + c);
    } else {
        let rest = bytes.skip(3);
        lemma_base64_head(bytes);
        lemma_base64_encodes_24_bit_groups(rest, k - 1);
        assert(group_value(rest, k - 1) == group_value(bytes, k));
        let out = base64_of(bytes);
        assert(out.skip(4) == base64_of(rest));
        lemma_base64_length(bytes);
        lemma_base64_length(rest);
        assert(out[4 * k] == base64_of(rest)[4 * (k - 1)]);
        assert(out[4 * k + 1] == base64_of(rest)[4 * (k - 1) + 1]);
        assert(out[4 * k + 2] == base64_of(rest)[4 * (k - 1) + 2]);
        assert(out[4 * k + 3] == base64_of(rest)[4 * (k - 1) + 3]);
    }
}

} // verus!
