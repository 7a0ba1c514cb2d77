//! Character-level text building blocks: decimal and hexadecimal rendering,
//! padding to a column width, prefix tests and pattern replacement.
//! Every executable function here is proved against the spec function of
//! the same shape, over `Seq<char>` views.
use vstd::prelude::*;
use vstd::string::*;
use vstd::arithmetic::power::{pow, lemma_pow_positive};
use vstd::arithmetic::div_mod::{lemma_mod_breakdown, lemma_fundamental_div_mod, lemma_small_mod};

verus! {

/// `String::push` appends one character at the end.
pub assume_specification[ String::push ](s: &mut String, ch: char)
    ensures
        final(s)@ == old(s)@.push(ch),
;

// ── spec side ─────────────────────────────────────────────────────────

/// `n` blank characters.
pub open spec fn spaces(n: nat) -> Seq<char> {
    Seq::new(n, |i: int| ' ')
}

/// `s` left-aligned in a column of `width` characters (`{:<width}`).
pub open spec fn pad_right(s: Seq<char>, width: nat) -> Seq<char> {
    if s.len() < width {
        s + spaces((width - s.len()) as nat)
    } else {
        s
    }
}

/// `s` right-aligned in a column of `width` characters (`{:>width}`).
pub open spec fn pad_left(s: Seq<char>, width: nat) -> Seq<char> {
    if s.len() < width {
        spaces((width - s.len()) as nat) + s
    } else {
        s
    }
}

/// The sixteen upper-case hexadecimal digits, in order of value.
pub open spec fn hex_alphabet() -> Seq<char> {
    seq!['0', '1', '2', '3', '4', '5', '6', '7', '8', '9', 'A', 'B', 'C', 'D', 'E', 'F']
}

/// The ten decimal digits, in order of value.
pub open spec fn dec_alphabet() -> Seq<char> {
    seq!['0', '1', '2', '3', '4', '5', '6', '7', '8', '9']
}

/// The lowest `n` hexadecimal digits of `v`, most significant first,
/// zero-padded to exactly `n` characters.
pub open spec fn hex_digits(v: nat, n: nat) -> Seq<char>
    decreases n,
{
    if n == 0 {
        seq![]
    } else {
        hex_digits(v / 16, (n - 1) as nat).push(hex_alphabet()[(v % 16) as int])
    }
}

/// `0x` followed by sixteen upper-case hex digits (`0x{:016X}`).
pub open spec fn hex64_text(v: u64) -> Seq<char> {
    "0x"@ + hex_digits(v as nat, 16)
}

/// `0x` followed by eight upper-case hex digits (`0x{:08X}`).
pub open spec fn hex32_text(v: u32) -> Seq<char> {
    "0x"@ + hex_digits(v as nat, 8)
}

/// Shortest decimal rendering of `n` (`{}` on an unsigned integer).
pub open spec fn dec_digits(n: nat) -> Seq<char>
    decreases n,
{
    if n < 10 {
        seq![dec_alphabet()[n as int]]
    } else {
        dec_digits(n / 10).push(dec_alphabet()[(n % 10) as int])
    }
}

/// Value of an upper-case hex digit character (0 for any other character).
pub open spec fn hex_char_value(c: char) -> nat {
    if c == '1' { 1 } else if c == '2' { 2 } else if c == '3' { 3 } else if c == '4' { 4 }
    else if c == '5' { 5 } else if c == '6' { 6 } else if c == '7' { 7 } else if c == '8' { 8 }
    else if c == '9' { 9 } else if c == 'A' { 10 } else if c == 'B' { 11 } else if c == 'C' { 12 }
    else if c == 'D' { 13 } else if c == 'E' { 14 } else if c == 'F' { 15 } else { 0 }
}

/// Value of a string of upper-case hex digits, most significant first.
pub open spec fn hex_text_value(s: Seq<char>) -> nat
    decreases s.len(),
{
    if s.len() == 0 {
        0
    } else {
        hex_text_value(s.drop_last()) * 16 + hex_char_value(s.last())
    }
}

/// Value of a decimal digit character (0 for any other character).
pub open spec fn dec_char_value(c: char) -> nat {
    if c == '1' { 1 } else if c == '2' { 2 } else if c == '3' { 3 } else if c == '4' { 4 }
    else if c == '5' { 5 } else if c == '6' { 6 } else if c == '7' { 7 } else if c == '8' { 8 }
    else if c == '9' { 9 } else { 0 }
}

/// Value of a string of decimal digits, most significant first.
pub open spec fn dec_text_value(s: Seq<char>) -> nat
    decreases s.len(),
{
    if s.len() == 0 {
        0
    } else {
        dec_text_value(s.drop_last()) * 10 + dec_char_value(s.last())
    }
}

/// `p` is a prefix of `s`.
pub open spec fn has_prefix(s: Seq<char>, p: Seq<char>) -> bool {
    p.len() <= s.len() && s.take(p.len() as int) == p
}

/// `s` with every non-overlapping occurrence of `pat`, scanned from the
/// left, replaced by `rep`. For a non-empty pattern this is what
/// `str::replace` gives; an empty pattern leaves `s` as it is (where
/// `str::replace` would put `rep` between every two characters).
pub open spec fn replace_all(s: Seq<char>, pat: Seq<char>, rep: Seq<char>) -> Seq<char>
    decreases s.len(),
{
    if pat.len() == 0 || s.len() == 0 {
        s
    } else if has_prefix(s, pat) {
        rep + replace_all(s.skip(pat.len() as int), pat, rep)
    } else {
        seq![s[0]] + replace_all(s.skip(1), pat, rep)
    }
}

// ── exec side ─────────────────────────────────────────────────────────

/// The characters of `s`, in order.
pub fn chars_of(s: &str) -> (v: Vec<char>)
    ensures
        v@ == s@,
{
    let mut v: Vec<char> = Vec::new();
    for c in it: s.chars()
        invariant
            it.seq() == s@,
            v@ == it.seq().take(it.index() as int),
    {
        v.push(c);
        assert(v@ == it.seq().take(it.index() + 1));
    }
    assert(v@ =~= s@);
    v
}

/// Appends `n` blanks to `out`.
pub fn push_spaces(out: &mut String, n: usize)
    ensures
        final(out)@ == old(out)@ + spaces(n as nat),
{
    let ghost start = out@;
    let mut i: usize = 0;
    while i < n
        invariant
            i <= n,
            out@ == start + spaces(i as nat),
        decreases n - i,
    {
        out.push(' ');
        i = i + 1;
        assert(out@ =~= start + spaces(i as nat));
    }
}

/// Appends `s` left-aligned in a column of `width` characters.
pub fn push_padded_right(out: &mut String, s: &str, width: usize)
    ensures
        final(out)@ == old(out)@ + pad_right(s@, width as nat),
{
    let n = s.unicode_len();
    out.append(s);
    if n < width {
        push_spaces(out, width - n);
    }
    assert(out@ =~= old(out)@ + pad_right(s@, width as nat));
}

/// Appends `s` right-aligned in a column of `width` characters.
pub fn push_padded_left(out: &mut String, s: &str, width: usize)
    ensures
        final(out)@ == old(out)@ + pad_left(s@, width as nat),
{
    let n = s.unicode_len();
    if n < width {
        push_spaces(out, width - n);
    }
    out.append(s);
    assert(out@ =~= old(out)@ + pad_left(s@, width as nat));
}

/// The hex digit of value `d`.
pub fn hex_char(d: u64) -> (c: char)
    requires
        d < 16,
    ensures
        c == hex_alphabet()[d as int],
{
    match d {
        0 => '0',
        1 => '1',
        2 => '2',
        3 => '3',
        4 => '4',
        5 => '5',
        6 => '6',
        7 => '7',
        8 => '8',
        9 => '9',
        10 => 'A',
        11 => 'B',
        12 => 'C',
        13 => 'D',
        14 => 'E',
        _ => 'F',
    }
}

/// Appends the lowest `n` hex digits of `v`, zero-padded.
pub fn push_hex_digits(out: &mut String, v: u64, n: usize)
    ensures
        final(out)@ == old(out)@ + hex_digits(v as nat, n as nat),
    decreases n,
{
    if n > 0 {
        push_hex_digits(out, v / 16, n - 1);
        out.push(hex_char(v % 16));
    }
}

/// `0x{:016X}` of `v`.
pub fn hex64(v: u64) -> (r: String)
    ensures
        r@ == hex64_text(v),
{
    let mut r = String::new();
    r.append("0x");
    push_hex_digits(&mut r, v, 16);
    r
}

/// `0x{:08X}` of `v`.
pub fn hex32(v: u32) -> (r: String)
    ensures
        r@ == hex32_text(v),
{
    let mut r = String::new();
    r.append("0x");
    push_hex_digits(&mut r, v as u64, 8);
    r
}

/// The decimal digit of value `d`.
pub fn dec_char(d: u64) -> (c: char)
    requires
        d < 10,
    ensures
        c == dec_alphabet()[d as int],
{
    match d {
        0 => '0',
        1 => '1',
        2 => '2',
        3 => '3',
        4 => '4',
        5 => '5',
        6 => '6',
        7 => '7',
        8 => '8',
        _ => '9',
    }
}

/// Appends the decimal rendering of `n`.
pub fn push_decimal(out: &mut String, n: u64)
    ensures
        final(out)@ == old(out)@ + dec_digits(n as nat),
    decreases n,
{
    if n >= 10 {
        push_decimal(out, n / 10);
    }
    out.push(dec_char(n % 10));
    assert(out@ =~= old(out)@ + dec_digits(n as nat));
}

/// Decimal rendering of `n`.
pub fn decimal(n: u64) -> (r: String)
    ensures
        r@ == dec_digits(n as nat),
{
    let mut r = String::new();
    push_decimal(&mut r, n);
    assert(r@ =~= dec_digits(n as nat));
    r
}

/// Whether `p` occurs in `s` starting at position `at`.
pub fn matches_at(s: &Vec<char>, p: &Vec<char>, at: usize) -> (r: bool)
    requires
        at <= s.len(),
    ensures
        r == has_prefix(s@.skip(at as int), p@),
{
    if p.len() > s.len() - at {
        return false;
    }
    let mut j: usize = 0;
    while j < p.len()
        invariant
            at <= s.len(),
            p.len() <= s.len() - at,
            j <= p.len(),
            forall|k: int| 0 <= k < j ==> s@[at + k] == p@[k],
        decreases p.len() - j,
    {
        if s[at + j] != p[j] {
            assert(s@.skip(at as int).take(p.len() as int)[j as int] != p@[j as int]);
            return false;
        }
        j = j + 1;
    }
    assert(s@.skip(at as int).take(p.len() as int) =~= p@);
    true
}

/// Whether `s` starts with `p` (`str::starts_with` with a string pattern).
pub fn starts_with(s: &str, p: &str) -> (r: bool)
    ensures
        r == has_prefix(s@, p@),
{
    let sv = chars_of(s);
    let pv = chars_of(p);
    assert(sv@.skip(0) =~= sv@);
    matches_at(&sv, &pv, 0)
}

/// Whether `a` and `b` hold the same characters.
pub fn str_eq(a: &str, b: &str) -> (r: bool)
    ensures
        r == (a@ == b@),
{
    let av = chars_of(a);
    let bv = chars_of(b);
    if av.len() != bv.len() {
        return false;
    }
    assert(av@.skip(0) =~= av@);
    let m = matches_at(&av, &bv, 0);
    if m {
        assert(av@.take(bv@.len() as int) =~= av@);
    } else {
        assert(!has_prefix(av@, bv@));
        assert(av@ != bv@) by {
            if av@ == bv@ {
                assert(av@.take(bv@.len() as int) =~= av@);
            }
        }
    }
    m
}

/// `s` with every non-overlapping occurrence of `pat` replaced by `rep`,
/// as `str::replace` does for a non-empty pattern; an empty pattern leaves
/// `s` unchanged.
pub fn replace_all_str(s: &str, pat: &str, rep: &str) -> (r: String)
    ensures
        r@ == replace_all(s@, pat@, rep@),
{
    let sv = chars_of(s);
    let pv = chars_of(pat);
    let mut out = String::new();
    if pv.len() == 0 {
        out.append(s);
        return out;
    }
    let mut i: usize = 0;
    assert(sv@.skip(0) =~= sv@);
    while i < sv.len()
        invariant
            sv@ == s@,
            pv@ == pat@,
            pv.len() > 0,
            i <= sv.len(),
            out@ + replace_all(sv@.skip(i as int), pat@, rep@) == replace_all(s@, pat@, rep@),
        decreases sv.len() - i,
    {
        let ghost rest = sv@.skip(i as int);
        if matches_at(&sv, &pv, i) {
            out.append(rep);
            assert(rest.skip(pv.len() as int) =~= sv@.skip(i + pv.len()));
            i = i + pv.len();
        } else {
            out.push(sv[i]);
            assert(rest.skip(1) =~= sv@.skip(i + 1));
            assert(seq![rest[0]] == seq![sv@[i as int]]);
            i = i + 1;
        }
        assert(out@ + replace_all(sv@.skip(i as int), pat@, rep@) =~= replace_all(s@, pat@, rep@));
    }
    assert(sv@.skip(i as int) =~= Seq::<char>::empty());
    assert(out@ =~= replace_all(s@, pat@, rep@));
    out
}

// ── laws ──────────────────────────────────────────────────────────────

/// `hex_digits(v, n)` has exactly `n` characters and reads back, in base 16,
/// as `v` modulo `16^n`.
pub proof fn lemma_hex_digits_value(v: nat, n: nat)
    ensures
        hex_digits(v, n).len() == n,
        hex_text_value(hex_digits(v, n)) == v % (pow(16, n) as nat),
    decreases n,
{
    reveal(pow);
    if n == 0 {
        assert(pow(16, 0) == 1);
    } else {
        let m = (n - 1) as nat;
        lemma_hex_digits_value(v / 16, m);
        lemma_pow_positive(16, m);
        let d = hex_digits(v, n);
        assert(d.drop_last() == hex_digits(v / 16, m));
        let r = v % 16;
        assert(hex_char_value(hex_alphabet()[r as int]) == r) by {
            assert(0 <= r < 16);
        }
        lemma_mod_breakdown(v as int, 16, pow(16, m));
        assert(pow(16, n) == 16 * pow(16, m));
    }
}

/// A 64-bit value rendered as `0x{:016X}` reads back as the same value:
/// the rendering loses nothing.
pub proof fn lemma_hex64_roundtrip(v: u64)
    ensures
        hex64_text(v).len() == 18,
        hex64_text(v).take(2) == "0x"@,
        hex_text_value(hex64_text(v).skip(2)) == v,
{
    reveal_strlit("0x");
    lemma_hex_digits_value(v as nat, 16);
    assert(pow(16, 16) == 0x1_0000_0000_0000_0000int) by {
        reveal_with_fuel(pow, 17);
    }
    lemma_small_mod(v as nat, pow(16, 16) as nat);
    assert(hex64_text(v).skip(2) =~= hex_digits(v as nat, 16));
    assert(hex64_text(v).take(2) =~= "0x"@);
}

/// A 32-bit value rendered as `0x{:08X}` reads back as the same value.
pub proof fn lemma_hex32_roundtrip(v: u32)
    ensures
        hex32_text(v).len() == 10,
        hex32_text(v).take(2) == "0x"@,
        hex_text_value(hex32_text(v).skip(2)) == v,
{
    reveal_strlit("0x");
    lemma_hex_digits_value(v as nat, 8);
    assert(pow(16, 8) == 0x1_0000_0000int) by {
        reveal_with_fuel(pow, 9);
    }
    lemma_small_mod(v as nat, pow(16, 8) as nat);
    assert(hex32_text(v).skip(2) =~= hex_digits(v as nat, 8));
    assert(hex32_text(v).take(2) =~= "0x"@);
}

/// The decimal rendering of `n` is non-empty and reads back as `n`.
pub proof fn lemma_decimal_roundtrip(n: nat)
    ensures
        dec_digits(n).len() >= 1,
        dec_text_value(dec_digits(n)) == n,
    decreases n,
{
    if n >= 10 {
        lemma_decimal_roundtrip(n / 10);
        let d = dec_digits(n);
        assert(d == dec_digits(n / 10).push(dec_alphabet()[(n % 10) as int]));
        assert(d.len() >= 1);
        assert(d.drop_last() =~= dec_digits(n / 10));
        let r = n % 10;
        assert(dec_char_value(dec_alphabet()[r as int]) == r) by {
            assert(0 <= r < 10);
        }
        assert(d.last() == dec_alphabet()[r as int]);
        lemma_fundamental_div_mod(n as int, 10);
        assert(dec_text_value(d) == dec_text_value(dec_digits(n / 10)) * 10 + r);
        assert((n / 10) * 10 + r == n) by (nonlinear_arith)
            requires
                n == 10 * (n / 10) + r,
        ;
    } else {
        let d = dec_digits(n);
        assert(d == seq![dec_alphabet()[n as int]]);
        assert(d.drop_last() =~= Seq::<char>::empty());
        assert(d.last() == dec_alphabet()[n as int]);
        assert(dec_char_value(dec_alphabet()[n as int]) == n);
        assert(dec_text_value(d.drop_last()) == 0);
        assert(dec_text_value(d) == dec_text_value(d.drop_last()) * 10 + dec_char_value(d.last()));
    }
}


/// Hexadecimal text uses the digits `0`..`9` and the upper-case letters
/// `A`..`F` only.
pub proof fn lemma_hex_digits_upper(v: nat, n: nat)
    ensures
        forall|i: int|
            0 <= i < hex_digits(v, n).len() ==> ('0' <= #[trigger] hex_digits(v, n)[i] <= '9') || ('A'
                <= hex_digits(v, n)[i] <= 'F'),
    decreases n,
{
    if n > 0 {
        lemma_hex_digits_upper(v / 16, (n - 1) as nat);
        let p = hex_digits(v / 16, (n - 1) as nat);
        let d = hex_alphabet()[(v % 16) as int];
        assert(('0' <= d <= '9') || ('A' <= d <= 'F'));
        assert forall|i: int|
            0 <= i < hex_digits(v, n).len() implies ('0' <= #[trigger] hex_digits(v, n)[i] <= '9') || (
            'A' <= hex_digits(v, n)[i] <= 'F') by {
            if i < p.len() {
                assert(hex_digits(v, n)[i] == p[i]);
            }
        }
    }
}

/// Decimal text uses the digits `0`..`9` only and starts with `0` only
/// for zero itself.
pub proof fn lemma_dec_digits_shortest(n: nat)
    ensures
        forall|i: int| 0 <= i < dec_digits(n).len() ==> '0' <= #[trigger] dec_digits(n)[i] <= '9',
        dec_digits(n)[0] == '0' <==> n == 0,
    decreases n,
{
    if n >= 10 {
        lemma_dec_digits_shortest(n / 10);
        lemma_decimal_roundtrip(n / 10);
        let p = dec_digits(n / 10);
        assert(dec_digits(n)[0] == p[0]);
        assert forall|i: int| 0 <= i < dec_digits(n).len() implies '0' <= #[trigger] dec_digits(n)[i] <= '9' by {
            if i < p.len() {
                assert(dec_digits(n)[i] == p[i]);
            }
        }
    }
}

/// Padding to the right keeps `s` at the start and fills the column up to
/// `width` with blanks; padding to the left keeps `s` at the end. Text as
/// wide as the column or wider is kept as it is.
pub proof fn lemma_pad(s: Seq<char>, width: nat)
    ensures
        pad_right(s, width).len() == if s.len() < width {
            width
        } else {
            s.len()
        },
        pad_left(s, width).len() == pad_right(s, width).len(),
        pad_right(s, width).take(s.len() as int) == s,
        pad_left(s, width).skip(pad_left(s, width).len() - s.len()) == s,
        forall|i: int| s.len() <= i < pad_right(s, width).len() ==> #[trigger] pad_right(s, width)[i] == ' ',
        forall|i: int|
            0 <= i < pad_left(s, width).len() - s.len() ==> #[trigger] pad_left(s, width)[i] == ' ',
{
    if s.len() < width {
        let b = spaces((width - s.len()) as nat);
        assert((s + b).take(s.len() as int) =~= s);
        assert((b + s).skip(b.len() as int) =~= s);
    } else {
        assert(s.take(s.len() as int) =~= s);
        assert(s.skip(0) =~= s);
    }
}

} // verus!
