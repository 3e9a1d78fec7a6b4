//! Verified rendering of unsigned integers as decimal text and of byte
//! payloads as uppercase hexadecimal text, together with the hex decoder
//! and its round-trip guarantees.

use vstd::prelude::*;

verus! {

/// The decimal digit character for a value below ten.
pub open spec fn dec_digit(d: nat) -> char {
    if d == 0 {
        '0'
    } else if d == 1 {
        '1'
    } else if d == 2 {
        '2'
    } else if d == 3 {
        '3'
    } else if d == 4 {
        '4'
    } else if d == 5 {
        '5'
    } else if d == 6 {
        '6'
    } else if d == 7 {
        '7'
    } else if d == 8 {
        '8'
    } else {
        '9'
    }
}

/// The decimal rendering of `n`, most significant digit first, with no
/// leading zeros (a lone `'0'` for zero).
pub open spec fn dec_str(n: nat) -> Seq<char>
    decreases n,
{
    if n < 10 {
        seq![dec_digit(n)]
    } else {
        dec_str(n / 10) + seq![dec_digit(n % 10)]
    }
}

/// The uppercase hexadecimal digit character for a value below sixteen.
pub open spec fn hex_digit(d: nat) -> char {
    if d == 0 {
        '0'
    } else if d == 1 {
        '1'
    } else if d == 2 {
        '2'
    } else if d == 3 {
        '3'
    } else if d == 4 {
        '4'
    } else if d == 5 {
        '5'
    } else if d == 6 {
        '6'
    } else if d == 7 {
        '7'
    } else if d == 8 {
        '8'
    } else if d == 9 {
        '9'
    } else if d == 10 {
        'A'
    } else if d == 11 {
        'B'
    } else if d == 12 {
        'C'
    } else if d == 13 {
        'D'
    } else if d == 14 {
        'E'
    } else {
        'F'
    }
}

/// One byte as exactly two uppercase hexadecimal digits.
pub open spec fn hex_byte(b: u8) -> Seq<char> {
    seq![hex_digit(b as nat / 16), hex_digit(b as nat % 16)]
}

/// A byte payload as uppercase hexadecimal text: two digits per byte, no
/// separators.
pub open spec fn hex_str(bytes: Seq<u8>) -> Seq<char>
    decreases bytes.len(),
{
    if bytes.len() == 0 {
        Seq::empty()
    } else {
        hex_str(bytes.drop_last()) + hex_byte(bytes.last())
    }
}

/// The lowercase hexadecimal digit character for a value below sixteen.
pub open spec fn hex_digit_lc(d: nat) -> char {
    if d == 0 {
        '0'
    } else if d == 1 {
        '1'
    } else if d == 2 {
        '2'
    } else if d == 3 {
        '3'
    } else if d == 4 {
        '4'
    } else if d == 5 {
        '5'
    } else if d == 6 {
        '6'
    } else if d == 7 {
        '7'
    } else if d == 8 {
        '8'
    } else if d == 9 {
        '9'
    } else if d == 10 {
        'a'
    } else if d == 11 {
        'b'
    } else if d == 12 {
        'c'
    } else if d == 13 {
        'd'
    } else if d == 14 {
        'e'
    } else {
        'f'
    }
}

/// The lowercase hexadecimal rendering of `n`, most significant digit
/// first, with no leading zeros (a lone `'0'` for zero).
pub open spec fn hex_group(n: nat) -> Seq<char>
    decreases n,
{
    if n < 16 {
        seq![hex_digit_lc(n)]
    } else {
        hex_group(n / 16) + seq![hex_digit_lc(n % 16)]
    }
}

/// The decimal digit below ten as a one-character string slice.
fn dec_digit_text(d: u8) -> (r: &'static str)
    requires
        d < 10,
    ensures
        r@ == seq![dec_digit(d as nat)],
{
    proof {
        reveal_strlit("0");
        reveal_strlit("1");
        reveal_strlit("2");
        reveal_strlit("3");
        reveal_strlit("4");
        reveal_strlit("5");
        reveal_strlit("6");
        reveal_strlit("7");
        reveal_strlit("8");
        reveal_strlit("9");
    }
    match d {
        0 => "0",
        1 => "1",
        2 => "2",
        3 => "3",
        4 => "4",
        5 => "5",
        6 => "6",
        7 => "7",
        8 => "8",
        _ => "9",
    }
}

/// The hexadecimal digit below sixteen as a one-character uppercase string
/// slice.
fn hex_digit_text(d: u8) -> (r: &'static str)
    requires
        d < 16,
    ensures
        r@ == seq![hex_digit(d as nat)],
{
    proof {
        reveal_strlit("0");
        reveal_strlit("1");
        reveal_strlit("2");
        reveal_strlit("3");
        reveal_strlit("4");
        reveal_strlit("5");
        reveal_strlit("6");
        reveal_strlit("7");
        reveal_strlit("8");
        reveal_strlit("9");
        reveal_strlit("A");
        reveal_strlit("B");
        reveal_strlit("C");
        reveal_strlit("D");
        reveal_strlit("E");
        reveal_strlit("F");
    }
    match d {
        0 => "0",
        1 => "1",
        2 => "2",
        3 => "3",
        4 => "4",
        5 => "5",
        6 => "6",
        7 => "7",
        8 => "8",
        9 => "9",
        10 => "A",
        11 => "B",
        12 => "C",
        13 => "D",
        14 => "E",
        _ => "F",
    }
}

/// Renders `n` as decimal text, most significant digit first.
pub fn render_u64_dec(n: u64) -> (r: String)
    ensures
        r@ == dec_str(n as nat),
    decreases n,
{
    if n < 10 {
        String::from_str(dec_digit_text(n as u8))
    } else {
        let mut prefix = render_u64_dec(n / 10);
        prefix.append(dec_digit_text((n % 10) as u8));
        prefix
    }
}

/// The lowercase hexadecimal digit below sixteen as a one-character string
/// slice.
fn hex_digit_lc_text(d: u8) -> (r: &'static str)
    requires
        d < 16,
    ensures
        r@ == seq![hex_digit_lc(d as nat)],
{
    proof {
        reveal_strlit("0");
        reveal_strlit("1");
        reveal_strlit("2");
        reveal_strlit("3");
        reveal_strlit("4");
        reveal_strlit("5");
        reveal_strlit("6");
        reveal_strlit("7");
        reveal_strlit("8");
        reveal_strlit("9");
        reveal_strlit("a");
        reveal_strlit("b");
        reveal_strlit("c");
        reveal_strlit("d");
        reveal_strlit("e");
        reveal_strlit("f");
    }
    match d {
        0 => "0",
        1 => "1",
        2 => "2",
        3 => "3",
        4 => "4",
        5 => "5",
        6 => "6",
        7 => "7",
        8 => "8",
        9 => "9",
        10 => "a",
        11 => "b",
        12 => "c",
        13 => "d",
        14 => "e",
        _ => "f",
    }
}

/// Renders `n` as lowercase hexadecimal text without leading zeros.
pub fn render_u16_hex(n: u16) -> (r: String)
    ensures
        r@ == hex_group(n as nat),
    decreases n,
{
    if n < 16 {
        String::from_str(hex_digit_lc_text(n as u8))
    } else {
        let mut prefix = render_u16_hex(n / 16);
        prefix.append(hex_digit_lc_text((n % 16) as u8));
        prefix
    }
}

/// Renders a byte payload as uppercase hexadecimal text, two digits per
/// byte, no separators. The rendering is a function of the bytes alone,
/// hence deterministic across runs.
pub fn render_hex(bytes: &Vec<u8>) -> (r: String)
    ensures
        r@ == hex_str(bytes@),
{
    let mut out = String::new();
    let mut i: usize = 0;
    while i < bytes.len()
        invariant
            i <= bytes.len(),
            out@ == hex_str(bytes@.take(i as int)),
        decreases bytes.len() - i,
    {
        let b = bytes[i];
        out.append(hex_digit_text(b / 16));
        out.append(hex_digit_text(b % 16));
        proof {
            assert(bytes@.take(i + 1 as int).drop_last() =~= bytes@.take(i as int));
            assert(bytes@.take(i + 1 as int).last() == b);
        }
        i = i + 1;
    }
    proof {
        assert(bytes@.take(bytes@.len() as int) =~= bytes@);
    }
    out
}

/// The hexadecimal rendering of a payload has exactly two characters per
/// byte.
pub proof fn lemma_hex_str_len(b: Seq<u8>)
    ensures
        hex_str(b).len() == 2 * b.len(),
    decreases b.len(),
{
    if b.len() > 0 {
        lemma_hex_str_len(b.drop_last());
    }
}

/// Characterizes each character of a hexadecimal rendering by the byte it
/// came from.
pub proof fn lemma_hex_str_index(b: Seq<u8>, i: int)
    requires
        0 <= i < b.len(),
    ensures
        hex_str(b)[2 * i] == hex_digit((b[i] as nat) / 16),
        hex_str(b)[2 * i + 1] == hex_digit((b[i] as nat) % 16),
    decreases b.len(),
{
    lemma_hex_str_len(b.drop_last());
    if i < b.len() - 1 {
        lemma_hex_str_index(b.drop_last(), i);
    }
}

/// Distinct values below sixteen render to distinct hexadecimal digits.
pub proof fn lemma_hex_digit_injective(d1: nat, d2: nat)
    requires
        d1 < 16,
        d2 < 16,
        hex_digit(d1) == hex_digit(d2),
    ensures
        d1 == d2,
{
}

/// Hexadecimal rendering loses no information: two payloads with the same
/// rendering are the same payload. Together with the decoder's contract
/// this yields the round-trip law: decoding a rendering gives back exactly
/// the bytes that were rendered.
pub proof fn lemma_hex_str_injective(a: Seq<u8>, b: Seq<u8>)
    requires
        hex_str(a) == hex_str(b),
    ensures
        a == b,
{
    lemma_hex_str_len(a);
    lemma_hex_str_len(b);
    assert forall|i: int| 0 <= i < a.len() implies a[i] == b[i] by {
        lemma_hex_str_index(a, i);
        lemma_hex_str_index(b, i);
        lemma_hex_digit_injective((a[i] as nat) / 16, (b[i] as nat) / 16);
        lemma_hex_digit_injective((a[i] as nat) % 16, (b[i] as nat) % 16);
        assert(a[i] == (a[i] as nat / 16) * 16 + a[i] as nat % 16) by (nonlinear_arith);
        assert(b[i] == (b[i] as nat / 16) * 16 + b[i] as nat % 16) by (nonlinear_arith);
    }
    assert(a =~= b);
}

/// The numeric value of one uppercase hexadecimal digit character, if it is
/// one.
fn hex_val(c: char) -> (r: Option<u8>)
    ensures
        r is Some ==> r.unwrap() < 16 && hex_digit(r.unwrap() as nat) == c,
        r is None ==> forall|d: nat| d < 16 ==> hex_digit(d) != c,
{
    match c {
        '0' => Some(0),
        '1' => Some(1),
        '2' => Some(2),
        '3' => Some(3),
        '4' => Some(4),
        '5' => Some(5),
        '6' => Some(6),
        '7' => Some(7),
        '8' => Some(8),
        '9' => Some(9),
        'A' => Some(10),
        'B' => Some(11),
        'C' => Some(12),
        'D' => Some(13),
        'E' => Some(14),
        'F' => Some(15),
        _ => None,
    }
}

/// Decodes uppercase hexadecimal text back into the byte payload it
/// renders. Returns the payload exactly when the text is a rendering of
/// one: two uppercase digits per byte and nothing else.
pub fn decode_hex(s: &str) -> (r: Option<Vec<u8>>)
    ensures
        r is Some ==> hex_str(r.unwrap()@) == s@,
        forall|b: Seq<u8>| s@ == hex_str(b) ==> (r matches Some(v) && v@ == b),
{
    let n = s.unicode_len();
    if n % 2 != 0 {
        proof {
            assert forall|b: Seq<u8>| s@ != hex_str(b) by {
                lemma_hex_str_len(b);
            }
        }
        return None;
    }
    let mut out: Vec<u8> = Vec::new();
    let mut i: usize = 0;
    while i * 2 < n
        invariant
            s@.len() == n,
            n % 2 == 0,
            i <= n / 2,
            out@.len() == i,
            hex_str(out@) == s@.take(2 * i as int),
        decreases n - 2 * i,
    {
        let c1 = s.get_char(2 * i);
        let c2 = s.get_char(2 * i + 1);
        let v1 = hex_val(c1);
        let v2 = hex_val(c2);
        if v1.is_none() || v2.is_none() {
            proof {
                assert forall|b: Seq<u8>| s@ != hex_str(b) by {
                    if s@ == hex_str(b) {
                        lemma_hex_str_len(b);
                        lemma_hex_str_index(b, i as int);
                        assert((b[i as int] as nat) / 16 < 16);
                        assert((b[i as int] as nat) % 16 < 16);
                    }
                }
            }
            return None;
        }
        let h = v1.unwrap();
        let l = v2.unwrap();
        let byte: u8 = h * 16 + l;
        let ghost prev = out@;
        out.push(byte);
        proof {
            assert(byte as nat / 16 == h as nat && byte as nat % 16 == l as nat)
                by (nonlinear_arith)
                requires
                    h < 16,
                    l < 16,
                    byte == h * 16 + l,
            ;
            assert(out@.drop_last() =~= prev);
            assert(out@.last() == byte);
            assert(s@.take(2 * (i + 1) as int) =~= s@.take(2 * i as int) + seq![c1, c2]);
            assert(hex_str(out@) == hex_str(prev) + hex_byte(byte));
            assert(hex_byte(byte) =~= seq![c1, c2]);
        }
        i = i + 1;
    }
    proof {
        assert(s@.take(2 * i as int) =~= s@);
        assert forall|b: Seq<u8>| s@ == hex_str(b) implies out@ == b by {
            lemma_hex_str_injective(out@, b);
        }
    }
    Some(out)
}

} // verus!
