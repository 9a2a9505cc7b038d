//! Hexadecimal numerals: how the numbers of USB devices are written and read.
use vstd::prelude::*;

use crate::number::numeral_digits;
use crate::text::{chars_of, concat};

verus! {

/// The lower-case hexadecimal digit with value `d`.
pub open spec fn hex_char(d: nat) -> char {
    if d < 10 {
        ('0' as int + d) as char
    } else {
        ('a' as int + d - 10) as char
    }
}

/// `n` as four lower-case hexadecimal digits.
pub open spec fn hex_text(n: u16) -> Seq<char> {
    seq![
        hex_char((n / 4096) as nat),
        hex_char((n / 256 % 16) as nat),
        hex_char((n / 16 % 16) as nat),
        hex_char((n % 16) as nat),
    ]
}

/// The value of a hexadecimal digit, upper or lower case.
pub open spec fn hex_char_value(c: char) -> Option<nat> {
    if '0' <= c <= '9' {
        Some((c as int - '0' as int) as nat)
    } else if 'a' <= c <= 'f' {
        Some((c as int - 'a' as int + 10) as nat)
    } else if 'A' <= c <= 'F' {
        Some((c as int - 'A' as int + 10) as nat)
    } else {
        None
    }
}

/// The number that a row of hexadecimal digits stands for.
pub open spec fn hex_digits_value(s: Seq<char>) -> Option<nat>
    decreases s.len(),
{
    if s.len() == 0 {
        Some(0)
    } else {
        match (hex_digits_value(s.drop_last()), hex_char_value(s.last())) {
            (Some(n), Some(d)) => Some(n * 16 + d),
            _ => None,
        }
    }
}

/// `s` read as a hexadecimal number of sixteen bits: digits only, at least one of them,
/// with an optional leading `+`.
pub open spec fn parsed_hex(s: Seq<char>) -> Option<nat> {
    let d = numeral_digits(s);
    match hex_digits_value(d) {
        Some(n) if d.len() > 0 && n <= 0xffff => Some(n),
        _ => None,
    }
}

/// The digit with value `d` as a one-character string.
fn hex_str(d: u16) -> (s: &'static str)
    requires
        d < 16,
    ensures
        s@ == seq![hex_char(d as nat)],
{
    proof {
        reveal_strlit("0");
        reveal_strlit("1");
        reveal_strlit("2");
        reveal_strlit("3");
        reveal_strlit("4");
        reveal_strlit("5");
        reveal_strlit("6");
        reveal_strlit("7");
        reveal_strlit("8");
        reveal_strlit("9");
        reveal_strlit("a");
        reveal_strlit("b");
        reveal_strlit("c");
        reveal_strlit("d");
        reveal_strlit("e");
        reveal_strlit("f");
    }
    match d {
        0 => "0",
        1 => "1",
        2 => "2",
        3 => "3",
        4 => "4",
        5 => "5",
        6 => "6",
        7 => "7",
        8 => "8",
        9 => "9",
        10 => "a",
        11 => "b",
        12 => "c",
        13 => "d",
        14 => "e",
        _ => "f",
    }
}

/// `n` as four lower-case hexadecimal digits.
pub fn hex_string(n: u16) -> (r: String)
    ensures
        r@ == hex_text(n),
{
    let mut r = concat(hex_str(n / 4096), hex_str(n / 256 % 16));
    r.append(hex_str(n / 16 % 16));
    r.append(hex_str(n % 16));
    assert(r@ =~= hex_text(n));
    r
}

/// A row that goes on stands for no smaller number, and for none if its beginning does
/// not.
proof fn hex_digits_value_grows(s: Seq<char>, k: int)
    requires
        0 <= k <= s.len(),
    ensures
        hex_digits_value(s) matches Some(n) ==> (hex_digits_value(s.take(k)) matches Some(m) && m
            <= n),
    decreases s.len() - k,
{
    if k == s.len() {
        assert(s.take(k) =~= s);
    } else {
        hex_digits_value_grows(s, k + 1);
        assert(s.take(k + 1).drop_last() =~= s.take(k));
    }
}

/// Reads the number of a USB vendor or product.
pub fn parse_hex_id(s: &str) -> (r: Option<u16>)
    ensures
        match r {
            Some(n) => parsed_hex(s@) == Some(n as nat),
            None => parsed_hex(s@) is None,
        },
{
    let v = chars_of(s);
    let start: usize = if v.len() > 0 && v[0] == '+' {
        1
    } else {
        0
    };
    let ghost d = numeral_digits(s@);
    assert(d =~= s@.skip(start as int));
    if v.len() == start {
        return None;
    }
    let mut n: u32 = 0;
    let mut i: usize = start;
    assert(d.take(0) =~= Seq::empty());
    while i < v.len()
        invariant
            v@ == s@,
            start <= i <= v.len(),
            d == numeral_digits(s@),
            d == s@.skip(start as int),
            d.len() == v.len() - start,
            hex_digits_value(d.take(i - start)) == Some(n as nat),
            n <= 0xffff,
        decreases v.len() - i,
    {
        let c = v[i];
        proof {
            assert(d[i - start] == c);
            assert(d.take(i - start + 1).drop_last() =~= d.take(i - start));
            hex_digits_value_grows(d, i - start + 1);
        }
        let x: u32 = if '0' <= c && c <= '9' {
            c as u32 - '0' as u32
        } else if 'a' <= c && c <= 'f' {
            c as u32 - 'a' as u32 + 10
        } else if 'A' <= c && c <= 'F' {
            c as u32 - 'A' as u32 + 10
        } else {
            return None;
        };
        n = n * 16 + x;
        if n > 0xffff {
            return None;
        }
        i += 1;
    }
    assert(d.take(v.len() - start) =~= d);
    Some(n as u16)
}

/// A number that is written reads back as it was.
pub proof fn hex_reads_back(n: u16)
    ensures
        parsed_hex(hex_text(n)) == Some(n as nat),
{
    let s = hex_text(n);
    let (a, b, c, d) = (n / 4096, n / 256 % 16, n / 16 % 16, n % 16);
    assert(hex_char_value(s[0]) == Some(a as nat));
    assert(hex_char_value(s[1]) == Some(b as nat));
    assert(hex_char_value(s[2]) == Some(c as nat));
    assert(hex_char_value(s[3]) == Some(d as nat));
    assert(s.take(4) =~= s);
    assert(s.take(4).drop_last() =~= s.take(3));
    assert(s.take(3).drop_last() =~= s.take(2));
    assert(s.take(2).drop_last() =~= s.take(1));
    assert(s.take(1).drop_last() =~= Seq::<char>::empty());
    assert(hex_digits_value(Seq::<char>::empty()) == Some(0nat));
    assert(hex_digits_value(s.take(1)) == Some(a as nat));
    assert(hex_digits_value(s.take(2)) == Some((a * 16 + b) as nat));
    assert(hex_digits_value(s.take(3)) == Some(((a * 16 + b) * 16 + c) as nat));
    assert(hex_digits_value(s) == Some((((a * 16 + b) * 16 + c) * 16 + d) as nat));
    assert(((a * 16 + b) * 16 + c) * 16 + d == n);
}

/// A row that holds anything but digits stands for no number.
proof fn other_characters_spoil_a_row(s: Seq<char>, i: int)
    requires
        0 <= i < s.len(),
        hex_char_value(s[i]) is None,
    ensures
        hex_digits_value(s) is None,
    decreases s.len(),
{
    if i < s.len() - 1 {
        other_characters_spoil_a_row(s.drop_last(), i);
    }
}

/// A number is written in lower-case digits and read in either case; it must fit in
/// sixteen bits, and there must be a digit and nothing but digits.
pub proof fn hex_numbers_are_read(n: u16, i: int, s: Seq<char>, j: int)
    ensures
        hex_text(n).len() == 4,
        0 <= i < 4 ==> '0' <= hex_text(n)[i] <= '9' || 'a' <= hex_text(n)[i] <= 'f',
        0 <= i < 6 ==> hex_char_value(('a' as int + i) as char) == Some((10 + i) as nat),
        0 <= i < 6 ==> hex_char_value(('A' as int + i) as char) == Some((10 + i) as nat),
        parsed_hex(seq!['1'] + hex_text(n)) == None::<nat>,
        parsed_hex(Seq::empty()) == None::<nat>,
        0 <= j < s.len() && hex_char_value(s[j]) is None && (j > 0 || s[0] != '+')
            ==> parsed_hex(s) == None::<nat>,
{
    hex_reads_back(n);
    let t = hex_text(n);
    let u = seq!['1'] + t;
    assert(u[0] == '1');
    a_one_before_four_digits(t, n as nat);
    if 0 <= j < s.len() && hex_char_value(s[j]) is None && (j > 0 || s[0] != '+') {
        if s[0] == '+' {
            assert(s.skip(1)[j - 1] == s[j]);
            other_characters_spoil_a_row(s.skip(1), j - 1);
        } else {
            other_characters_spoil_a_row(s, j);
        }
    }
}

/// A one before four digits counts sixteen bits more.
proof fn a_one_before_four_digits(t: Seq<char>, n: nat)
    requires
        t.len() == 4,
        t[0] != '+',
        parsed_hex(t) == Some(n),
    ensures
        hex_digits_value(seq!['1'] + t) == Some(0x1_0000 + n),
{
    let u = seq!['1'] + t;
    assert(t.take(4) =~= t);
    assert(t.take(4).drop_last() =~= t.take(3));
    assert(t.take(3).drop_last() =~= t.take(2));
    assert(t.take(2).drop_last() =~= t.take(1));
    assert(t.take(1).drop_last() =~= Seq::<char>::empty());
    assert(u.take(5) =~= u);
    assert(u.take(5).drop_last() =~= u.take(4));
    assert(u.take(4).drop_last() =~= u.take(3));
    assert(u.take(3).drop_last() =~= u.take(2));
    assert(u.take(2).drop_last() =~= u.take(1));
    assert(u.take(1).drop_last() =~= Seq::<char>::empty());
    assert(hex_digits_value(Seq::<char>::empty()) == Some(0nat));
    let a = hex_char_value(t[0]);
    let b = hex_char_value(t[1]);
    let c = hex_char_value(t[2]);
    let d = hex_char_value(t[3]);
    assert(hex_digits_value(t.take(1)) is Some ==> hex_digits_value(t.take(1)) == a);
    assert(hex_digits_value(u.take(1)) == Some(1nat));
    assert(hex_digits_value(t.take(4)) == hex_digits_value(t));
    assert(hex_digits_value(t.take(3)) is Some);
    assert(hex_digits_value(t.take(2)) is Some);
    assert(hex_digits_value(t.take(1)) is Some);
    assert(hex_digits_value(u.take(2)) == Some(16 + a->Some_0));
    assert(hex_digits_value(u.take(3)) == Some((16 + a->Some_0) * 16 + b->Some_0));
    assert(hex_digits_value(u.take(4)) == Some(
        ((16 + a->Some_0) * 16 + b->Some_0) * 16 + c->Some_0,
    ));
    assert(hex_digits_value(u) == Some(
        (((16 + a->Some_0) * 16 + b->Some_0) * 16 + c->Some_0) * 16 + d->Some_0,
    ));
}

} // verus!
