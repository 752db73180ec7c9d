//! IPv4 addresses in dot-decimal notation: four octets in decimal, divided by
//! dots, each written without leading zeros.

use crate::text::{char_digit_value, char_is_digit, decimal, digit_char, digit_value, is_digit};
use vstd::prelude::*;

verus! {

/// An IPv4 address, octet by octet from the left.
#[derive(Clone, Copy, PartialEq, Eq, Structural, Debug)]
pub struct Ipv4Address {
    pub a: u8,
    pub b: u8,
    pub c: u8,
    pub d: u8,
}

/// The address in dot-decimal notation.
pub open spec fn ipv4_text(ip: Ipv4Address) -> Seq<char> {
    decimal(ip.a as nat) + seq!['.'] + decimal(ip.b as nat) + seq!['.'] + decimal(ip.c as nat)
        + seq!['.'] + decimal(ip.d as nat)
}

/// The address that `s` is the dot-decimal notation of, if it is that of any.
pub open spec fn ipv4_of(s: Seq<char>) -> Option<Ipv4Address> {
    if exists|ip: Ipv4Address| #[trigger] ipv4_text(ip) == s {
        Some(choose|ip: Ipv4Address| #[trigger] ipv4_text(ip) == s)
    } else {
        None
    }
}

/// `s` holds the octet `v` in decimal from `pos` up to `next`, and the
/// digits end there.
pub open spec fn octet_at(s: Seq<char>, pos: int, v: int, next: int) -> bool {
    &&& 0 <= v <= 255
    &&& 0 <= pos <= next <= s.len()
    &&& s.subrange(pos, next) == decimal(v as nat)
    &&& (next == s.len() || !is_digit(s[next]))
}

/// `s` has `k` digits from `pos` on; with `k < 4`, it has no more than these.
pub open spec fn digits_from(s: Seq<char>, pos: int, k: int) -> bool {
    &&& 0 <= k <= 4
    &&& 0 <= pos
    &&& pos + k <= s.len()
    &&& forall|i: int| pos <= i < pos + k ==> is_digit(#[trigger] s[i])
    &&& (k == 4 || pos + k == s.len() || !is_digit(s[pos + k]))
}

/// The decimal text of an octet, written out by its number of digits.
pub proof fn lemma_octet_digits(v: int)
    requires
        0 <= v <= 255,
    ensures
        v < 10 ==> decimal(v as nat) == seq![digit_char(v)],
        10 <= v < 100 ==> decimal(v as nat) == seq![digit_char(v / 10), digit_char(v % 10)],
        100 <= v ==> decimal(v as nat) == seq![
            digit_char(v / 100),
            digit_char((v / 10) % 10),
            digit_char(v % 10),
        ],
{
    reveal_with_fuel(decimal, 3);
    if 10 <= v < 100 {
        assert(decimal(v as nat) =~= seq![digit_char(v / 10), digit_char(v % 10)]);
    }
    if 100 <= v {
        assert((v / 10) / 10 == v / 100);
        assert(decimal(v as nat) =~= seq![
            digit_char(v / 100),
            digit_char((v / 10) % 10),
            digit_char(v % 10),
        ]);
    }
}

/// An octet that stands at `pos` takes up the whole run of digits there, and
/// the run determines it.
proof fn lemma_octet_read(s: Seq<char>, pos: int, k: int, v: int, next: int)
    requires
        digits_from(s, pos, k),
        octet_at(s, pos, v, next),
    ensures
        next == pos + k,
        1 <= k <= 3,
        k == 1 ==> v == digit_value(s[pos]),
        k == 2 ==> v == 10 * digit_value(s[pos]) + digit_value(s[pos + 1]) && digit_value(s[pos]) != 0,
        k == 3 ==> v == 100 * digit_value(s[pos]) + 10 * digit_value(s[pos + 1]) + digit_value(
            s[pos + 2],
        ) && digit_value(s[pos]) != 0,
{
    lemma_octet_digits(v);
    let t = s.subrange(pos, next);
    assert(forall|i: int| 0 <= i < t.len() ==> t[i] == s[pos + i]);
    assert(t.len() == next - pos);
    assert(0 <= v / 10 <= 25 && 0 <= v % 10 <= 9 && 0 <= (v / 10) % 10 <= 9 && 0 <= v / 100 <= 2);
    if v < 10 {
        assert(t[0] == digit_char(v));
    } else if v < 100 {
        assert(t[0] == digit_char(v / 10));
        assert(t[1] == digit_char(v % 10));
    } else {
        assert(t[0] == digit_char(v / 100));
        assert(t[1] == digit_char((v / 10) % 10));
        assert(t[2] == digit_char(v % 10));
    }
    assert(forall|i: int| pos <= i < next ==> is_digit(#[trigger] s[i])) by {
        assert forall|i: int| pos <= i < next implies is_digit(#[trigger] s[i]) by {
            assert(s[i] == t[i - pos]);
        }
    }
    if next < pos + k {
        assert(is_digit(s[next]));
    }
    if next > pos + k {
        assert(is_digit(s[pos + k]));
    }
}

/// A run of one to three digits without a leading zero, of a value up to
/// 255, is that value's decimal text.
proof fn lemma_octet_written(s: Seq<char>, pos: int, k: int, v: int)
    requires
        digits_from(s, pos, k),
        1 <= k <= 3,
        0 <= v <= 255,
        k == 1 ==> v == digit_value(s[pos]),
        k == 2 ==> v == 10 * digit_value(s[pos]) + digit_value(s[pos + 1]) && digit_value(s[pos]) != 0,
        k == 3 ==> v == 100 * digit_value(s[pos]) + 10 * digit_value(s[pos + 1]) + digit_value(
            s[pos + 2],
        ) && digit_value(s[pos]) != 0,
    ensures
        octet_at(s, pos, v, pos + k),
{
    lemma_octet_digits(v);
    let t = s.subrange(pos, pos + k);
    assert(is_digit(s[pos]));
    if k >= 2 {
        assert(is_digit(s[pos + 1]));
    }
    if k >= 3 {
        assert(is_digit(s[pos + 2]));
    }
    assert(t =~= decimal(v as nat));
}

/// How many digits stand at `pos`, counted up to four.
fn digit_run(s: &str, len: usize, pos: usize) -> (k: usize)
    requires
        len == s@.len(),
        pos <= len,
    ensures
        digits_from(s@, pos as int, k as int),
{
    let mut k: usize = 0;
    while k < 4 && k < len - pos && char_is_digit(s.get_char(pos + k))
        invariant
            len == s@.len(),
            pos <= len,
            k <= 4,
            pos + k <= len,
            forall|i: int| pos <= i < pos + k ==> is_digit(#[trigger] s@[i]),
        decreases 4 - k,
    {
        k = k + 1;
    }
    k
}

/// Reads the octet that stands at `pos`.
fn parse_octet(s: &str, len: usize, pos: usize) -> (r: Option<(u8, usize)>)
    requires
        len == s@.len(),
        pos <= len,
    ensures
        r matches Some(found) ==> octet_at(s@, pos as int, found.0 as int, found.1 as int),
        forall|v: int, next: int| #[trigger]
            octet_at(s@, pos as int, v, next) ==> r == Some((v as u8, next as usize)),
{
    let k = digit_run(s, len, pos);
    if k == 0 || k == 4 {
        assert forall|v: int, next: int| #[trigger] octet_at(s@, pos as int, v, next) implies false by {
            lemma_octet_read(s@, pos as int, k as int, v, next);
        }
        return None;
    }
    let d0 = char_digit_value(s.get_char(pos));
    if k == 1 {
        proof {
            lemma_octet_written(s@, pos as int, 1, d0 as int);
            assert forall|v: int, next: int| #[trigger]
                octet_at(s@, pos as int, v, next) implies v == d0 && next == pos + 1 by {
                lemma_octet_read(s@, pos as int, k as int, v, next);
            }
        }
        return Some((d0, pos + 1));
    }
    let d1 = char_digit_value(s.get_char(pos + 1));
    if d0 == 0 {
        assert forall|v: int, next: int| #[trigger] octet_at(s@, pos as int, v, next) implies false by {
            lemma_octet_read(s@, pos as int, k as int, v, next);
        }
        return None;
    }
    if k == 2 {
        let v: u8 = d0 * 10 + d1;
        proof {
            lemma_octet_written(s@, pos as int, 2, v as int);
            assert forall|w: int, next: int| #[trigger]
                octet_at(s@, pos as int, w, next) implies w == v && next == pos + 2 by {
                lemma_octet_read(s@, pos as int, k as int, w, next);
            }
        }
        return Some((v, pos + 2));
    }
    let d2 = char_digit_value(s.get_char(pos + 2));
    let wide: u16 = d0 as u16 * 100 + d1 as u16 * 10 + d2 as u16;
    if wide > 255 {
        assert forall|v: int, next: int| #[trigger] octet_at(s@, pos as int, v, next) implies false by {
            lemma_octet_read(s@, pos as int, k as int, v, next);
        }
        return None;
    }
    proof {
        lemma_octet_written(s@, pos as int, 3, wide as int);
        assert forall|w: int, next: int| #[trigger]
            octet_at(s@, pos as int, w, next) implies w == wide && next == pos + 3 by {
            lemma_octet_read(s@, pos as int, k as int, w, next);
        }
    }
    Some((wide as u8, pos + 3))
}

/// Where the octets and dots of an address stand in its text.
pub open spec fn laid_out(s: Seq<char>, ip: Ipv4Address, dot1: int, dot2: int, dot3: int) -> bool {
    &&& octet_at(s, 0, ip.a as int, dot1)
    &&& dot1 < s.len() && s[dot1] == '.'
    &&& octet_at(s, dot1 + 1, ip.b as int, dot2)
    &&& dot2 < s.len() && s[dot2] == '.'
    &&& octet_at(s, dot2 + 1, ip.c as int, dot3)
    &&& dot3 < s.len() && s[dot3] == '.'
    &&& octet_at(s, dot3 + 1, ip.d as int, s.len() as int)
}

/// Where the first, second and third dot stand in the text of `ip`.
pub open spec fn dots(ip: Ipv4Address) -> (int, int, int) {
    let dot1 = decimal(ip.a as nat).len() as int;
    let dot2 = dot1 + 1 + decimal(ip.b as nat).len();
    let dot3 = dot2 + 1 + decimal(ip.c as nat).len();
    (dot1, dot2, dot3)
}

/// The text of an address is laid out as four octets with a dot after each
/// of the first three.
proof fn lemma_text_laid_out(ip: Ipv4Address)
    ensures
        laid_out(ipv4_text(ip), ip, dots(ip).0, dots(ip).1, dots(ip).2),
{
    let s = ipv4_text(ip);
    let ta = decimal(ip.a as nat);
    let tb = decimal(ip.b as nat);
    let tc = decimal(ip.c as nat);
    let td = decimal(ip.d as nat);
    let dot1 = ta.len() as int;
    let dot2 = dot1 + 1 + tb.len();
    let dot3 = dot2 + 1 + tc.len();
    lemma_octet_digits(ip.a as int);
    lemma_octet_digits(ip.b as int);
    lemma_octet_digits(ip.c as int);
    lemma_octet_digits(ip.d as int);
    assert(s.len() == dot3 + 1 + td.len());
    assert(s.subrange(0, dot1) =~= ta);
    assert(s.subrange(dot1 + 1, dot2) =~= tb);
    assert(s.subrange(dot2 + 1, dot3) =~= tc);
    assert(s.subrange(dot3 + 1, s.len() as int) =~= td);
    assert(s[dot1] == '.');
    assert(s[dot2] == '.');
    assert(s[dot3] == '.');
}

/// A text that is laid out as an address is that address's text.
proof fn lemma_laid_out_text(s: Seq<char>, ip: Ipv4Address, dot1: int, dot2: int, dot3: int)
    requires
        laid_out(s, ip, dot1, dot2, dot3),
    ensures
        s == ipv4_text(ip),
{
    let n = s.len() as int;
    assert(s =~= s.subrange(0, dot1) + seq!['.'] + s.subrange(dot1 + 1, dot2) + seq!['.'] + s.subrange(
        dot2 + 1,
        dot3,
    ) + seq!['.'] + s.subrange(dot3 + 1, n));
}

/// Of the octets that could stand at one place, only one does.
proof fn lemma_octet_unique(s: Seq<char>, pos: int, v: int, next: int, w: int, other: int)
    requires
        octet_at(s, pos, v, next),
        octet_at(s, pos, w, other),
    ensures
        v == w,
        next == other,
{
    lemma_octet_digits(v);
    let t = s.subrange(pos, next);
    let k = next - pos;
    assert(t.len() == k);
    assert(0 <= v / 10 <= 25 && 0 <= v % 10 <= 9 && 0 <= (v / 10) % 10 <= 9 && 0 <= v / 100 <= 2);
    assert forall|i: int| pos <= i < pos + k implies is_digit(#[trigger] s[i]) by {
        assert(s[i] == t[i - pos]);
    }
    assert(digits_from(s, pos, k));
    lemma_octet_read(s, pos, k, v, next);
    lemma_octet_read(s, pos, k, w, other);
}

/// Two addresses with the same text are the same address.
pub proof fn lemma_ipv4_text_injective(x: Ipv4Address, y: Ipv4Address)
    requires
        ipv4_text(x) == ipv4_text(y),
    ensures
        x == y,
{
    let s = ipv4_text(x);
    lemma_text_laid_out(x);
    lemma_text_laid_out(y);
    lemma_octet_unique(s, 0, x.a as int, dots(x).0, y.a as int, dots(y).0);
    lemma_octet_unique(s, dots(x).0 + 1, x.b as int, dots(x).1, y.b as int, dots(y).1);
    lemma_octet_unique(s, dots(x).1 + 1, x.c as int, dots(x).2, y.c as int, dots(y).2);
    lemma_octet_unique(s, dots(x).2 + 1, x.d as int, s.len() as int, y.d as int, s.len() as int);
}

/// Writing an address and reading the text gives the address back.
pub proof fn lemma_ipv4_round_trip(ip: Ipv4Address)
    ensures
        ipv4_of(ipv4_text(ip)) == Some(ip),
{
    let s = ipv4_text(ip);
    let read = choose|other: Ipv4Address| #[trigger] ipv4_text(other) == s;
    lemma_ipv4_text_injective(read, ip);
}

/// Reads an IPv4 address in dot-decimal notation. The whole of `s` has to be
/// the address: four octets from 0 to 255, each in decimal without leading
/// zeros, with a dot between neighbours.
pub fn parse_ipv4(s: &str) -> (r: Option<Ipv4Address>)
    ensures
        r == ipv4_of(s@),
        r matches Some(ip) ==> ipv4_text(ip) == s@,
{
    let len = s.unicode_len();
    let first = parse_octet(s, len, 0);
    let second = match first {
        Some((_, dot1)) => if dot1 < len && s.get_char(dot1) == '.' {
            parse_octet(s, len, dot1 + 1)
        } else {
            None
        },
        None => None,
    };
    let third = match second {
        Some((_, dot2)) => if dot2 < len && s.get_char(dot2) == '.' {
            parse_octet(s, len, dot2 + 1)
        } else {
            None
        },
        None => None,
    };
    let fourth = match third {
        Some((_, dot3)) => if dot3 < len && s.get_char(dot3) == '.' {
            parse_octet(s, len, dot3 + 1)
        } else {
            None
        },
        None => None,
    };
    let r = match (first, second, third, fourth) {
        (Some((a, _)), Some((b, _)), Some((c, _)), Some((d, end))) => if end == len {
            Some(Ipv4Address { a, b, c, d })
        } else {
            None
        },
        _ => None,
    };
    proof {
        assert forall|ip: Ipv4Address| #[trigger] ipv4_text(ip) == s@ implies r == Some(ip) by {
            lemma_text_laid_out(ip);
        }
        if let Some(ip) = r {
            lemma_laid_out_text(s@, ip, first.unwrap().1 as int, second.unwrap().1 as int, third.unwrap().1 as int);
        }
    }
    r
}

} // verus!
