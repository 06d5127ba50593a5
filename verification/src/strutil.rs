//! String comparison and comma-list helpers used by the state layer and the
//! transaction handler.

use vstd::prelude::*;
use vstd::utf8::{encode_utf8, encode_utf8_decode_utf8};
use vstd::string::StringSliceAdditionalSpecFns;

verus! {

/// Strict lexicographic order on byte sequences.
pub open spec fn lex_lt(a: Seq<u8>, b: Seq<u8>) -> bool
    decreases a.len(),
{
    if b.len() == 0 {
        false
    } else if a.len() == 0 {
        true
    } else if a[0] < b[0] {
        true
    } else if a[0] == b[0] {
        lex_lt(a.drop_first(), b.drop_first())
    } else {
        false
    }
}

/// Strict order on strings: lexicographic order of their UTF-8 bytes.
/// This is the order in which the state layer keeps each address's list.
pub open spec fn str_key_lt(a: Seq<char>, b: Seq<char>) -> bool {
    lex_lt(encode_utf8(a), encode_utf8(b))
}

/// Two strings with the same UTF-8 encoding are the same string.
pub proof fn lemma_encode_utf8_injective(a: Seq<char>, b: Seq<char>)
    requires
        encode_utf8(a) == encode_utf8(b),
    ensures
        a == b,
{
    encode_utf8_decode_utf8(a);
    encode_utf8_decode_utf8(b);
}

/// The byte order is transitive.
pub proof fn lemma_lex_lt_trans(a: Seq<u8>, b: Seq<u8>, c: Seq<u8>)
    requires
        lex_lt(a, b),
        lex_lt(b, c),
    ensures
        lex_lt(a, c),
    decreases a.len(),
{
    if a.len() > 0 && b.len() > 0 && c.len() > 0 && a[0] == b[0] && b[0] == c[0] {
        lemma_lex_lt_trans(a.drop_first(), b.drop_first(), c.drop_first());
    }
}

/// The byte order is asymmetric, and strict between distinct sequences.
pub proof fn lemma_lex_lt_asym(a: Seq<u8>, b: Seq<u8>)
    requires
        lex_lt(a, b),
    ensures
        !lex_lt(b, a),
        a != b,
    decreases a.len(),
{
    if a.len() > 0 && b.len() > 0 && a[0] == b[0] {
        lemma_lex_lt_asym(a.drop_first(), b.drop_first());
        assert(a != b) by {
            assert(a.drop_first() != b.drop_first());
        }
    }
}

/// Any two byte sequences are ordered or equal.
pub proof fn lemma_lex_lt_total(a: Seq<u8>, b: Seq<u8>)
    ensures
        lex_lt(a, b) || lex_lt(b, a) || a == b,
    decreases a.len(),
{
    if a.len() > 0 && b.len() > 0 && a[0] == b[0] {
        lemma_lex_lt_total(a.drop_first(), b.drop_first());
        if a.drop_first() == b.drop_first() {
            assert(a.len() == b.len());
            assert forall|k: int| 0 <= k < a.len() implies a[k] == b[k] by {
                if k > 0 {
                    assert(a[k] == a.drop_first()[k - 1]);
                    assert(b[k] == b.drop_first()[k - 1]);
                }
            }
            assert(a =~= b);
        }
    } else if a.len() == 0 && b.len() == 0 {
        assert(a =~= b);
    }
}

/// Any two strings are ordered by `str_key_lt` or equal.
pub proof fn lemma_str_key_lt_total(a: Seq<char>, b: Seq<char>)
    ensures
        str_key_lt(a, b) || str_key_lt(b, a) || a == b,
{
    lemma_lex_lt_total(encode_utf8(a), encode_utf8(b));
    if !str_key_lt(a, b) && !str_key_lt(b, a) {
        lemma_encode_utf8_injective(a, b);
    }
}

/// Dropping an equal prefix does not change how two byte sequences compare.
proof fn lemma_lex_lt_skip(a: Seq<u8>, b: Seq<u8>, i: int)
    requires
        0 <= i <= a.len(),
        i <= b.len(),
        forall|j: int| 0 <= j < i ==> a[j] == b[j],
    ensures
        lex_lt(a, b) == lex_lt(a.skip(i), b.skip(i)),
    decreases i,
{
    if i > 0 {
        assert(a.len() > 0 && b.len() > 0 && a[0] == b[0]);
        lemma_lex_lt_skip(a.drop_first(), b.drop_first(), i - 1);
        assert(a.drop_first().skip(i - 1) =~= a.skip(i));
        assert(b.drop_first().skip(i - 1) =~= b.skip(i));
    } else {
        assert(a.skip(0) =~= a);
        assert(b.skip(0) =~= b);
    }
}

/// True exactly when the two strings are equal.
pub fn str_eq(a: &str, b: &str) -> (r: bool)
    ensures
        r == (a@ == b@),
{
    let ab = a.as_bytes();
    let bb = b.as_bytes();
    if ab.len() != bb.len() {
        proof {
            if a@ == b@ {
                assert(a.spec_bytes() == b.spec_bytes());
            }
        }
        return false;
    }
    let n = ab.len();
    let mut i: usize = 0;
    while i < n
        invariant
            n == ab@.len() == bb@.len(),
            ab@ == a.spec_bytes(),
            bb@ == b.spec_bytes(),
            i <= n,
            forall|j: int| 0 <= j < i ==> ab@[j] == bb@[j],
        decreases n - i,
    {
        if ab[i] != bb[i] {
            proof {
                if a@ == b@ {
                    assert(a.spec_bytes() == b.spec_bytes());
                }
            }
            return false;
        }
        i += 1;
    }
    proof {
        assert(a.spec_bytes() =~= b.spec_bytes());
        lemma_encode_utf8_injective(a@, b@);
    }
    true
}

/// True exactly when `a` comes strictly before `b` in the state layer's
/// key order.
pub fn str_lt(a: &str, b: &str) -> (r: bool)
    ensures
        r == str_key_lt(a@, b@),
{
    let ab = a.as_bytes();
    let bb = b.as_bytes();
    let alen = ab.len();
    let blen = bb.len();
    let min = if alen < blen {
        alen
    } else {
        blen
    };
    let mut i: usize = 0;
    while i < min
        invariant
            ab@ == a.spec_bytes(),
            bb@ == b.spec_bytes(),
            alen == ab@.len(),
            blen == bb@.len(),
            min <= alen,
            min <= blen,
            i <= min,
            forall|j: int| 0 <= j < i ==> ab@[j] == bb@[j],
        decreases min - i,
    {
        let x = ab[i];
        let y = bb[i];
        if x < y {
            proof {
                lemma_lex_lt_skip(ab@, bb@, i as int);
            }
            return true;
        }
        if y < x {
            proof {
                lemma_lex_lt_skip(ab@, bb@, i as int);
                if lex_lt(ab@, bb@) {
                    assert(lex_lt(ab@.skip(i as int), bb@.skip(i as int)));
                }
            }
            return false;
        }
        i += 1;
    }
    proof {
        lemma_lex_lt_skip(ab@, bb@, min as int);
        if alen == blen {
            assert(ab@.skip(min as int).len() == 0);
            assert(bb@.skip(min as int).len() == 0);
        }
    }
    alen < blen
}

/// Index of the first comma of `s` at or after `i`; `s.len()` when there
/// is none.
pub open spec fn first_comma_from(s: Seq<char>, i: int) -> int
    decreases s.len() - i,
{
    if i < 0 || i >= s.len() {
        s.len() as int
    } else if s[i] == ',' {
        i
    } else {
        first_comma_from(s, i + 1)
    }
}

/// The first comma at or after `i` is between `i` and the string's end.
pub proof fn lemma_first_comma_from_bounds(s: Seq<char>, i: int)
    requires
        0 <= i <= s.len(),
    ensures
        i <= first_comma_from(s, i) <= s.len(),
        first_comma_from(s, i) < s.len() ==> s[first_comma_from(s, i)] == ',',
    decreases s.len() - i,
{
    if i < s.len() && s[i] != ',' {
        lemma_first_comma_from_bounds(s, i + 1);
    }
}

/// The pieces of `s` between commas, starting at `i`.
pub open spec fn split_commas_from(s: Seq<char>, i: int) -> Seq<Seq<char>>
    decreases s.len() - i
        via split_commas_from_dec
{
    if !(0 <= i <= s.len()) {
        seq![]
    } else {
        let j = first_comma_from(s, i);
        if j >= s.len() {
            seq![s.subrange(i, s.len() as int)]
        } else {
            seq![s.subrange(i, j)] + split_commas_from(s, j + 1)
        }
    }
}

#[via_fn]
proof fn split_commas_from_dec(s: Seq<char>, i: int) {
    if 0 <= i <= s.len() {
        lemma_first_comma_from_bounds(s, i);
    }
}

/// Pushing a piece onto a list of pieces adds exactly that piece to what
/// the list contains.
proof fn lemma_push_contains(s: Seq<Seq<char>>, x: Seq<char>, y: Seq<char>)
    ensures
        s.push(x).contains(y) == (s.contains(y) || x == y),
{
    if s.contains(y) {
        let k = choose|k: int| 0 <= k < s.len() && s[k] == y;
        assert(s.push(x)[k] == y);
    }
    if x == y {
        assert(s.push(x)[s.len() as int] == y);
    }
    if s.push(x).contains(y) && !(s.contains(y) || x == y) {
        let k = choose|k: int| 0 <= k < s.push(x).len() && s.push(x)[k] == y;
        if k < s.len() {
            assert(s[k] == y);
        }
    }
}

/// The pieces of `s` between commas, as `str::split(',')` yields them.
pub open spec fn split_commas(s: Seq<char>) -> Seq<Seq<char>> {
    split_commas_from(s, 0)
}

proof fn lemma_first_comma_from_found(s: Seq<char>, start: int, i: int)
    requires
        0 <= start <= i <= s.len(),
        forall|j: int| start <= j < i ==> s[j] != ',',
    ensures
        i < s.len() && s[i] == ',' ==> first_comma_from(s, start) == i,
        i == s.len() ==> first_comma_from(s, start) == s.len(),
    decreases i - start,
{
    if start < i {
        lemma_first_comma_from_found(s, start + 1, i);
    }
}

/// True exactly when one of the comma-separated pieces of `value` equals
/// `signer`.
pub fn csv_contains(value: &str, signer: &str) -> (r: bool)
    ensures
        r == split_commas(value@).contains(signer@),
{
    let n = value.unicode_len();
    let mut start: usize = 0;
    let mut i: usize = 0;
    let mut found = false;
    let ghost mut done: Seq<Seq<char>> = Seq::empty();
    while i < n
        invariant
            n == value@.len(),
            start <= i <= n,
            forall|j: int| start <= j < i ==> value@[j] != ',',
            split_commas(value@) == done + split_commas_from(value@, start as int),
            found == done.contains(signer@),
        decreases n - i,
    {
        let c = value.get_char(i);
        if c == ',' {
            let piece = value.substring_char(start, i);
            proof {
                lemma_first_comma_from_found(value@, start as int, i as int);
                assert(split_commas_from(value@, start as int) == seq![
                    value@.subrange(start as int, i as int),
                ] + split_commas_from(value@, i + 1));
            }
            if str_eq(piece, signer) {
                found = true;
            }
            proof {
                let gpiece = value@.subrange(start as int, i as int);
                lemma_push_contains(done, gpiece, signer@);
                done = done.push(gpiece);
                assert(done + split_commas_from(value@, i + 1) =~= split_commas(value@));
            }
            start = i + 1;
        }
        i += 1;
    }
    let last = value.substring_char(start, n);
    proof {
        lemma_first_comma_from_found(value@, start as int, n as int);
        assert(split_commas_from(value@, start as int) =~= seq![
            value@.subrange(start as int, n as int),
        ]);
        assert(split_commas(value@) =~= done.push(value@.subrange(start as int, n as int)));
        lemma_push_contains(done, value@.subrange(start as int, n as int), signer@);
    }
    if str_eq(last, signer) {
        found = true;
    }
    found
}

/// `p` is the first characters of `s`.
pub open spec fn is_char_prefix(p: Seq<char>, s: Seq<char>) -> bool {
    p.len() <= s.len() && s.take(p.len() as int) == p
}

/// True exactly when `b`'s characters are the first characters of `a`.
pub fn str_starts_with(a: &str, b: &str) -> (r: bool)
    ensures
        r == is_char_prefix(b@, a@),
{
    let alen = a.unicode_len();
    let blen = b.unicode_len();
    if blen > alen {
        return false;
    }
    let mut i: usize = 0;
    while i < blen
        invariant
            alen == a@.len(),
            blen == b@.len(),
            blen <= alen,
            i <= blen,
            forall|j: int| 0 <= j < i ==> a@[j] == b@[j],
        decreases blen - i,
    {
        if a.get_char(i) != b.get_char(i) {
            proof {
                if a@.take(blen as int) == b@ {
                    assert(a@.take(blen as int)[i as int] == a@[i as int]);
                }
            }
            return false;
        }
        i += 1;
    }
    proof {
        assert(a@.take(blen as int) =~= b@);
    }
    true
}

/// True exactly when one of the strings in `v` equals `s`.
pub fn vec_contains_str(v: &[String], s: &str) -> (r: bool)
    ensures
        r == v.deep_view().contains(s@),
{
    let n = v.len();
    let mut i: usize = 0;
    while i < n
        invariant
            n == v.len(),
            i <= n,
            forall|j: int| 0 <= j < i ==> v.deep_view()[j] != s@,
        decreases n - i,
    {
        if str_eq(v[i].as_str(), s) {
            proof {
                assert(v.deep_view()[i as int] == v[i as int]@);
            }
            return true;
        }
        i += 1;
    }
    false
}


/// The character of one decimal digit.
pub open spec fn digit_char(d: int) -> char {
    if d == 0 {
        '0'
    } else if d == 1 {
        '1'
    } else if d == 2 {
        '2'
    } else if d == 3 {
        '3'
    } else if d == 4 {
        '4'
    } else if d == 5 {
        '5'
    } else if d == 6 {
        '6'
    } else if d == 7 {
        '7'
    } else if d == 8 {
        '8'
    } else {
        '9'
    }
}

/// The decimal digits of a non-negative number, most significant first.
pub open spec fn dec_rep(n: int) -> Seq<char>
    decreases n,
{
    if n < 10 {
        seq![digit_char(n)]
    } else {
        dec_rep(n / 10).push(digit_char(n % 10))
    }
}

/// The decimal representation of a signed number.
pub open spec fn dec_rep_signed(n: int) -> Seq<char> {
    if n < 0 {
        seq!['-'] + dec_rep(-n)
    } else {
        dec_rep(n)
    }
}

/// One decimal digit as text.
fn digit_str(d: u64) -> (r: &'static str)
    requires
        d < 10,
    ensures
        r@ == seq![digit_char(d as int)],
{
    proof {
        reveal_strlit("0");
        reveal_strlit("1");
        reveal_strlit("2");
        reveal_strlit("3");
        reveal_strlit("4");
        reveal_strlit("5");
        reveal_strlit("6");
        reveal_strlit("7");
        reveal_strlit("8");
        reveal_strlit("9");
    }
    match d {
        0 => "0",
        1 => "1",
        2 => "2",
        3 => "3",
        4 => "4",
        5 => "5",
        6 => "6",
        7 => "7",
        8 => "8",
        _ => "9",
    }
}

/// A non-negative number, written in decimal.
fn u64_to_string(n: u64) -> (r: String)
    ensures
        r@ == dec_rep(n as int),
    decreases n,
{
    if n < 10 {
        String::from_str(digit_str(n))
    } else {
        u64_to_string(n / 10).concat(digit_str(n % 10))
    }
}

/// A signed number, written in decimal.
pub fn i32_to_string(n: i32) -> (r: String)
    ensures
        r@ == dec_rep_signed(n as int),
{
    if n < 0 {
        let magnitude = (-(n as i64)) as u64;
        proof {
            reveal_strlit("-");
        }
        String::from_str("-").concat(u64_to_string(magnitude).as_str())
    } else {
        u64_to_string(n as u64)
    }
}

} // verus!
