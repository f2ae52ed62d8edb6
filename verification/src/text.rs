//! Rendering of numbers, identifiers and command lines as text.

use vstd::prelude::*;
use vstd::string::StringExecFns;

verus! {

/// The character of a decimal digit.
pub open spec fn digit_char(d: int) -> char {
    if d == 0 {
        '0'
    } else if d == 1 {
        '1'
    } else if d == 2 {
        '2'
    } else if d == 3 {
        '3'
    } else if d == 4 {
        '4'
    } else if d == 5 {
        '5'
    } else if d == 6 {
        '6'
    } else if d == 7 {
        '7'
    } else if d == 8 {
        '8'
    } else {
        '9'
    }
}

/// The decimal digits of a natural number, most significant first, without
/// leading zeros.
pub open spec fn decimal_nat(n: nat) -> Seq<char>
    decreases n,
{
    if n < 10 {
        seq![digit_char(n as int)]
    } else {
        decimal_nat(n / 10).push(digit_char((n % 10) as int))
    }
}

/// The decimal rendering of an integer, with a leading minus sign when it is
/// negative.
pub open spec fn decimal(n: int) -> Seq<char> {
    if n < 0 {
        seq!['-'] + decimal_nat((-n) as nat)
    } else {
        decimal_nat(n as nat)
    }
}

/// How an optional exit code reads: `None`, or `Some(` the decimal code `)`.
pub open spec fn exit_code_seq(code: Option<i32>) -> Seq<char> {
    match code {
        None => "None"@,
        Some(c) => "Some("@ + decimal(c as int) + ")"@,
    }
}

fn digit_str(d: u64) -> (r: &'static str)
    requires
        d < 10,
    ensures
        r@ == seq![digit_char(d as int)],
{
    proof {
        reveal_strlit("0");
        reveal_strlit("1");
        reveal_strlit("2");
        reveal_strlit("3");
        reveal_strlit("4");
        reveal_strlit("5");
        reveal_strlit("6");
        reveal_strlit("7");
        reveal_strlit("8");
        reveal_strlit("9");
    }
    let r = if d == 0 {
        "0"
    } else if d == 1 {
        "1"
    } else if d == 2 {
        "2"
    } else if d == 3 {
        "3"
    } else if d == 4 {
        "4"
    } else if d == 5 {
        "5"
    } else if d == 6 {
        "6"
    } else if d == 7 {
        "7"
    } else if d == 8 {
        "8"
    } else {
        "9"
    };
    assert(r@ =~= seq![digit_char(d as int)]);
    r
}

/// Renders an unsigned number in decimal.
pub fn u64_to_decimal(n: u64) -> (r: String)
    ensures
        r@ == decimal_nat(n as nat),
    decreases n,
{
    if n < 10 {
        digit_str(n).to_string()
    } else {
        let mut s = u64_to_decimal(n / 10);
        s.append(digit_str(n % 10));
        assert(s@ =~= decimal_nat((n / 10) as nat).push(digit_char((n % 10) as int)));
        s
    }
}

/// Renders a signed number in decimal.
pub fn i32_to_decimal(n: i32) -> (r: String)
    ensures
        r@ == decimal(n as int),
{
    if n < 0 {
        let magnitude: u64 = (-(n as i64)) as u64;
        let mut s = "-".to_string();
        proof {
            reveal_strlit("-");
        }
        let digits = u64_to_decimal(magnitude);
        s.append(digits.as_str());
        assert(s@ =~= seq!['-'] + decimal_nat((-(n as int)) as nat));
        s
    } else {
        u64_to_decimal(n as u64)
    }
}

/// Renders an optional exit code.
pub fn exit_code_text(code: Option<i32>) -> (r: String)
    ensures
        r@ == exit_code_seq(code),
{
    match code {
        None => "None".to_string(),
        Some(c) => {
            let mut s = "Some(".to_string();
            let digits = i32_to_decimal(c);
            s.append(digits.as_str());
            s.append(")");
            s
        },
    }
}

/// Concatenation of two strings.
pub fn concat2(a: &str, b: &str) -> (r: String)
    ensures
        r@ == a@ + b@,
{
    let mut s = a.to_string();
    s.append(b);
    s
}

/// Concatenation of three strings.
pub fn concat3(a: &str, b: &str, c: &str) -> (r: String)
    ensures
        r@ == a@ + b@ + c@,
{
    let mut s = a.to_string();
    s.append(b);
    s.append(c);
    s
}

/// The words of a command line separated by single spaces.
pub open spec fn spaced(words: Seq<Seq<char>>) -> Seq<char>
    decreases words.len(),
{
    if words.len() == 0 {
        Seq::<char>::empty()
    } else if words.len() == 1 {
        words[0]
    } else {
        spaced(words.drop_last()) + " "@ + words.last()
    }
}

/// Joins the words of a command line with single spaces.
pub fn join_spaced(words: &Vec<String>) -> (r: String)
    ensures
        r@ == spaced(crate::models::texts(words@)),
{
    let mut out = String::new();
    let mut i: usize = 0;
    while i < words.len()
        invariant
            i <= words.len(),
            out@ == spaced(crate::models::texts(words@.take(i as int))),
        decreases words.len() - i,
    {
        let ghost before = crate::models::texts(words@.take(i as int));
        let ghost after = crate::models::texts(words@.take(i as int + 1));
        proof {
            assert(after.drop_last() =~= before);
            assert(after.last() == words@[i as int]@);
        }
        if i > 0 {
            out.append(" ");
        } else {
            assert(out@ =~= Seq::<char>::empty());
            assert(out@ + words@[i as int]@ =~= words@[i as int]@);
        }
        out.append(words[i].as_str());
        i += 1;
    }
    assert(words@.take(words.len() as int) =~= words@);
    out
}

// ----------------------------------------------------------------------------
// Identifiers
// ----------------------------------------------------------------------------

/// The character of a hexadecimal digit, in lower case.
pub open spec fn hex_char(d: int) -> char {
    if d < 10 {
        digit_char(d)
    } else if d == 10 {
        'a'
    } else if d == 11 {
        'b'
    } else if d == 12 {
        'c'
    } else if d == 13 {
        'd'
    } else if d == 14 {
        'e'
    } else {
        'f'
    }
}

/// The `k`-th hexadecimal digit of an identifier, counted from the most
/// significant, for `k` from 0 to 31.
pub open spec fn id_nibble(id: u128, k: int) -> int {
    ((id >> ((124 - 4 * k) as u128)) & 0xfu128) as int
}

/// The character at position `i` of an identifier's text: a hyphen at
/// positions 8, 13, 18 and 23, and the hexadecimal digits in between.
pub open spec fn id_text_char(id: u128, i: int) -> char {
    if i == 8 || i == 13 || i == 18 || i == 23 {
        '-'
    } else if i < 8 {
        hex_char(id_nibble(id, i))
    } else if i < 13 {
        hex_char(id_nibble(id, i - 1))
    } else if i < 18 {
        hex_char(id_nibble(id, i - 2))
    } else if i < 23 {
        hex_char(id_nibble(id, i - 3))
    } else {
        hex_char(id_nibble(id, i - 4))
    }
}

/// The text of an identifier: its 32 hexadecimal digits in lower case, in
/// groups of 8, 4, 4, 4 and 12 joined by hyphens.
pub open spec fn id_text_seq(id: u128) -> Seq<char> {
    Seq::new(36, |i: int| id_text_char(id, i))
}

/// How many characters of an identifier's text stand before its `k`-th digit
/// and the hyphen that may precede it.
pub open spec fn written_before(k: int) -> int {
    if k <= 8 {
        k
    } else if k <= 12 {
        k + 1
    } else if k <= 16 {
        k + 2
    } else if k <= 20 {
        k + 3
    } else {
        k + 4
    }
}

fn hex_str(d: u128) -> (r: &'static str)
    requires
        d < 16,
    ensures
        r@ == seq![hex_char(d as int)],
{
    proof {
        reveal_strlit("0");
        reveal_strlit("1");
        reveal_strlit("2");
        reveal_strlit("3");
        reveal_strlit("4");
        reveal_strlit("5");
        reveal_strlit("6");
        reveal_strlit("7");
        reveal_strlit("8");
        reveal_strlit("9");
        reveal_strlit("a");
        reveal_strlit("b");
        reveal_strlit("c");
        reveal_strlit("d");
        reveal_strlit("e");
        reveal_strlit("f");
    }
    let r = if d == 0 {
        "0"
    } else if d == 1 {
        "1"
    } else if d == 2 {
        "2"
    } else if d == 3 {
        "3"
    } else if d == 4 {
        "4"
    } else if d == 5 {
        "5"
    } else if d == 6 {
        "6"
    } else if d == 7 {
        "7"
    } else if d == 8 {
        "8"
    } else if d == 9 {
        "9"
    } else if d == 10 {
        "a"
    } else if d == 11 {
        "b"
    } else if d == 12 {
        "c"
    } else if d == 13 {
        "d"
    } else if d == 14 {
        "e"
    } else {
        "f"
    };
    assert(r@ =~= seq![hex_char(d as int)]);
    r
}

/// Writes an identifier as text.
pub fn id_text(id: u128) -> (r: String)
    ensures
        r@ == id_text_seq(id),
{
    let mut out = String::new();
    let mut k: u128 = 0;
    assert(out@ =~= id_text_seq(id).take(0));
    while k < 32
        invariant
            k <= 32,
            out@ == id_text_seq(id).take(written_before(k as int)),
        decreases 32 - k,
    {
        let ghost n = written_before(k as int);
        let ghost hyphen = k == 8 || k == 12 || k == 16 || k == 20;
        if k == 8 || k == 12 || k == 16 || k == 20 {
            proof {
                reveal_strlit("-");
                assert(id_text_seq(id)[n] == '-');
                assert(out@ + "-"@ =~= id_text_seq(id).take(n + 1));
            }
            out.append("-");
        }
        let ghost m = if hyphen {
            n + 1
        } else {
            n
        };
        let shift: u128 = 124 - 4 * k;
        let x: u128 = id >> shift;
        let d: u128 = x & 0xf;
        assert(d < 16) by (bit_vector)
            requires
                d == x & 0xfu128,
        ;
        proof {
            assert(d as int == id_nibble(id, k as int));
            assert(id_text_seq(id)[m] == hex_char(d as int));
            assert(out@ + seq![hex_char(d as int)] =~= id_text_seq(id).take(m + 1));
            assert(m + 1 == written_before(k as int + 1));
        }
        out.append(hex_str(d));
        k += 1;
    }
    assert(id_text_seq(id).take(36) =~= id_text_seq(id));
    out
}

} // verus!
