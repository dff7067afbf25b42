//! Character-level helpers over strings and their mathematical models.

use vstd::prelude::*;
use vstd::std_specs::iter::IteratorSpec;
use vstd::arithmetic::div_mod::lemma_breakdown;
use vstd::arithmetic::power::{lemma_pow_positive, pow};

verus! {

/// The sixteen hexadecimal digits, lowercase.
pub open spec fn lower_digits() -> Seq<char> {
    seq!['0', '1', '2', '3', '4', '5', '6', '7', '8', '9', 'a', 'b', 'c', 'd', 'e', 'f']
}

/// The sixteen hexadecimal digits, uppercase.
pub open spec fn upper_digits() -> Seq<char> {
    seq!['0', '1', '2', '3', '4', '5', '6', '7', '8', '9', 'A', 'B', 'C', 'D', 'E', 'F']
}

/// The digit of value `d` (below 16).
pub open spec fn hex_digit(d: nat, upper: bool) -> char {
    if upper { upper_digits()[d as int] } else { lower_digits()[d as int] }
}

/// `n` in hexadecimal with no leading zeros (`0` is written `"0"`).
pub open spec fn hex(n: nat, upper: bool) -> Seq<char>
    decreases n,
{
    if n < 16 {
        seq![hex_digit(n, upper)]
    } else {
        hex(n / 16, upper).push(hex_digit(n % 16, upper))
    }
}

/// The last `w` hexadecimal digits of `n`, zero-padded on the left.
pub open spec fn hex_fixed(n: nat, w: nat, upper: bool) -> Seq<char>
    decreases w,
{
    if w == 0 {
        Seq::empty()
    } else {
        hex_fixed(n / 16, (w - 1) as nat, upper).push(hex_digit(n % 16, upper))
    }
}

/// Relies on `String::push`: the character is appended at the end.
#[verifier::external_body]
pub(crate) fn push_char(s: &mut String, c: char)
    ensures
        final(s)@ == old(s)@.push(c),
{
    s.push(c)
}

/// The characters of the string, in order.
pub fn chars_of(s: &str) -> (r: Vec<char>)
    ensures
        r@ == s@,
{
    broadcast use vstd::string::axiom_spec_iter, vstd::string::next_postcondition;

    let mut it = s.chars();
    let mut v: Vec<char> = Vec::new();
    loop
        invariant
            it.obeys_prophetic_iter_laws(),
            v@ + it.remaining() == s@,
            it.decrease() is Some,
        ensures
            v@ == s@,
        decreases it.decrease()->0,
    {
        match it.next() {
            Some(c) => {
                v.push(c);
            },
            None => {
                assert(v@ + Seq::<char>::empty() =~= v@);
                break;
            },
        }
    }
    v
}

/// Appends every character of `s` to `out`.
pub fn push_str(out: &mut String, s: &str)
    ensures
        final(out)@ == old(out)@ + s@,
{
    let cs = chars_of(s);
    let mut i: usize = 0;
    while i < cs.len()
        invariant
            0 <= i <= cs@.len(),
            cs@ == s@,
            out@ == old(out)@ + s@.take(i as int),
        decreases cs@.len() - i,
    {
        push_char(out, cs[i]);
        i = i + 1;
        assert(s@.take(i as int) == s@.take(i as int - 1).push(cs@[i as int - 1]));
    }
    assert(s@.take(cs@.len() as int) == s@);
}

fn digit_char(d: u128, upper: bool) -> (c: char)
    requires
        d < 16,
    ensures
        c == hex_digit(d as nat, upper),
{
    if d < 10 {
        ((d as u8) + 48u8) as char
    } else if upper {
        ((d as u8) + 55u8) as char
    } else {
        ((d as u8) + 87u8) as char
    }
}

/// Appends `n` in hexadecimal with no leading zeros.
pub fn push_hex(out: &mut String, n: u128, upper: bool)
    ensures
        final(out)@ == old(out)@ + hex(n as nat, upper),
    decreases n,
{
    if n >= 16 {
        push_hex(out, n / 16, upper);
    }
    push_char(out, digit_char(n % 16, upper));
}

/// Appends the last `w` hexadecimal digits of `n`, zero-padded.
pub fn push_hex_fixed(out: &mut String, n: u128, w: u32, upper: bool)
    ensures
        final(out)@ == old(out)@ + hex_fixed(n as nat, w as nat, upper),
    decreases w,
{
    if w > 0 {
        push_hex_fixed(out, n / 16, w - 1, upper);
        push_char(out, digit_char(n % 16, upper));
    }
}

} // verus!

verus! {

/// The pieces of `s` between occurrences of `sep`, as `str::split` gives
/// them: `k` separators always give `k + 1` pieces, empty ones included.
pub open spec fn split(s: Seq<char>, sep: char) -> Seq<Seq<char>>
    decreases s.len(),
{
    if s.len() == 0 {
        seq![Seq::empty()]
    } else {
        let p = split(s.drop_last(), sep);
        if s.last() == sep {
            p.push(Seq::empty())
        } else {
            p.update(p.len() - 1, p.last().push(s.last()))
        }
    }
}

pub proof fn lemma_split_nonempty(s: Seq<char>, sep: char)
    ensures
        split(s, sep).len() >= 1,
    decreases s.len(),
{
    if s.len() > 0 {
        lemma_split_nonempty(s.drop_last(), sep);
    }
}

/// The models of a list of strings.
pub open spec fn views(v: Seq<String>) -> Seq<Seq<char>> {
    v.map_values(|t: String| t@)
}

/// Splits `s` at every `sep`.
pub fn split_chars(s: &str, sep: char) -> (r: Vec<String>)
    ensures
        views(r@) == split(s@, sep),
{
    let cs = chars_of(s);
    let mut done: Vec<String> = Vec::new();
    let mut cur = String::new();
    let mut i: usize = 0;
    while i < cs.len()
        invariant
            0 <= i <= cs@.len(),
            cs@ == s@,
            views(done@).push(cur@) == split(s@.take(i as int), sep),
        decreases cs@.len() - i,
    {
        let c = cs[i];
        proof {
            let t = s@.take(i as int + 1);
            assert(t.drop_last() == s@.take(i as int));
            assert(t.last() == c);
            lemma_split_nonempty(s@.take(i as int), sep);
        }
        if c == sep {
            let piece = cur;
            proof {
                assert(views(done@.push(piece)) == views(done@).push(piece@));
            }
            done.push(piece);
            cur = String::new();
        } else {
            let ghost before = cur@;
            push_char(&mut cur, c);
            proof {
                let p = views(done@).push(before);
                assert(views(done@).push(cur@) == p.update(p.len() - 1, p.last().push(c)));
            }
        }
        i = i + 1;
    }
    assert(s@.take(cs@.len() as int) == s@);
    proof {
        assert(views(done@.push(cur)) == views(done@).push(cur@));
    }
    done.push(cur);
    done
}

} // verus!

verus! {

/// The ASCII lowercase of a character: `'A'..='Z'` moves to `'a'..='z'`,
/// every other character stays.
pub open spec fn ascii_lower(c: char) -> char {
    if 'A' <= c && c <= 'Z' {
        ((c as u32) + 32) as char
    } else {
        c
    }
}

/// Two strings equal up to ASCII case.
pub open spec fn eq_ascii_case(a: Seq<char>, b: Seq<char>) -> bool {
    a.len() == b.len() && forall|i: int| 0 <= i < a.len() ==> ascii_lower(#[trigger] a[i]) == ascii_lower(b[i])
}

/// Whether two characters are equal once both are taken to ASCII lowercase.
fn lower_eq(x: char, y: char) -> (r: bool)
    ensures
        r == (ascii_lower(x) == ascii_lower(y)),
{
    let lx: u32 = if 'A' <= x && x <= 'Z' { x as u32 + 32 } else { x as u32 };
    let ly: u32 = if 'A' <= y && y <= 'Z' { y as u32 + 32 } else { y as u32 };
    proof {
        assert(ascii_lower(x) as u32 == lx);
        assert(ascii_lower(y) as u32 == ly);
    }
    lx == ly
}

/// Whether two strings are equal up to ASCII case.
pub(crate) fn eq_ignore_case(a: &str, b: &str) -> (r: bool)
    ensures
        r == eq_ascii_case(a@, b@),
{
    let ca = chars_of(a);
    let cb = chars_of(b);
    if ca.len() != cb.len() {
        return false;
    }
    let mut i: usize = 0;
    while i < ca.len()
        invariant
            0 <= i <= ca@.len(),
            ca@ == a@,
            cb@ == b@,
            ca@.len() == cb@.len(),
            forall|k: int| 0 <= k < i ==> ascii_lower(#[trigger] a@[k]) == ascii_lower(b@[k]),
        decreases ca@.len() - i,
    {
        if !lower_eq(ca[i], cb[i]) {
            return false;
        }
        i = i + 1;
    }
    true
}

pub proof fn lemma_split_push_sep(p: Seq<char>, sep: char)
    ensures
        split(p.push(sep), sep) == split(p, sep).push(Seq::empty()),
{
    assert(p.push(sep).drop_last() == p);
}

/// Appending text without a separator extends the last piece.
pub proof fn lemma_split_append_plain(p: Seq<char>, b: Seq<char>, sep: char)
    requires
        !b.contains(sep),
    ensures
        split(p + b, sep) == split(p, sep).update(
            split(p, sep).len() - 1,
            split(p, sep).last() + b,
        ),
    decreases b.len(),
{
    lemma_split_nonempty(p, sep);
    let q = split(p, sep);
    if b.len() == 0 {
        assert(p + b == p);
        assert(q.last() + b == q.last());
        assert(q.update(q.len() - 1, q.last()) == q);
    } else {
        let b0 = b.drop_last();
        assert(!b0.contains(sep)) by {
            if b0.contains(sep) {
                let k = choose|k: int| 0 <= k < b0.len() && b0[k] == sep;
                assert(b[k] == sep);
            }
        }
        lemma_split_append_plain(p, b0, sep);
        assert((p + b).drop_last() == p + b0);
        assert((p + b).last() == b.last());
        assert(b[b.len() - 1] == b.last());
        assert((q.last() + b0).push(b.last()) == q.last() + b);
    }
}

} // verus!

verus! {

/// The value of a hexadecimal digit of either case.
pub open spec fn digit_value(c: char) -> nat {
    if '0' <= c && c <= '9' {
        (c as u32 - 48) as nat
    } else if 'a' <= c && c <= 'f' {
        (c as u32 - 87) as nat
    } else if 'A' <= c && c <= 'F' {
        (c as u32 - 55) as nat
    } else {
        0
    }
}

/// The number that a string of hexadecimal digits denotes.
pub open spec fn hex_value(s: Seq<char>) -> nat
    decreases s.len(),
{
    if s.len() == 0 {
        0
    } else {
        hex_value(s.drop_last()) * 16 + digit_value(s.last())
    }
}

pub proof fn lemma_hex_digit(d: nat, upper: bool)
    requires
        d < 16,
    ensures
        digit_value(hex_digit(d, upper)) == d,
        d > 0 ==> hex_digit(d, upper) != '0',
{
    assert(0 <= d < 16);
    if d < 8 {
        assert(d == 0 || d == 1 || d == 2 || d == 3 || d == 4 || d == 5 || d == 6 || d == 7);
    } else {
        assert(d == 8 || d == 9 || d == 10 || d == 11 || d == 12 || d == 13 || d == 14 || d == 15);
    }
}

/// Every character of `s` is a digit of the given case.
pub open spec fn all_digits(s: Seq<char>, upper: bool) -> bool {
    forall|k: int| 0 <= k < s.len() ==> (if upper { upper_digits() } else { lower_digits() }).contains(
        #[trigger] s[k],
    )
}

pub proof fn lemma_all_digits_push(s: Seq<char>, d: nat, upper: bool)
    requires
        all_digits(s, upper),
        d < 16,
    ensures
        all_digits(s.push(hex_digit(d, upper)), upper),
{
    let t = s.push(hex_digit(d, upper));
    let ds = if upper { upper_digits() } else { lower_digits() };
    assert(ds[d as int] == hex_digit(d, upper));
    assert forall|k: int| 0 <= k < t.len() implies ds.contains(#[trigger] t[k]) by {
        if k < s.len() {
            assert(t[k] == s[k]);
        } else {
            assert(t[k] == ds[d as int]);
        }
    }
}

/// `hex` writes exactly `n`, with no leading zero.
pub proof fn lemma_hex(n: nat, upper: bool)
    ensures
        hex(n, upper).len() >= 1,
        all_digits(hex(n, upper), upper),
        hex_value(hex(n, upper)) == n,
        n > 0 ==> hex(n, upper)[0] != '0',
    decreases n,
{
    if n < 16 {
        lemma_hex_digit(n, upper);
        let s = hex(n, upper);
        lemma_all_digits_push(Seq::empty(), n, upper);
        assert(s == Seq::<char>::empty().push(hex_digit(n, upper)));
        assert(s.drop_last() =~= Seq::<char>::empty());
        assert(hex_value(s.drop_last()) == 0);
        assert(s.last() == hex_digit(n, upper));
    } else {
        lemma_hex(n / 16, upper);
        lemma_hex_digit(n % 16, upper);
        lemma_all_digits_push(hex(n / 16, upper), n % 16, upper);
        let s = hex(n, upper);
        assert(s.drop_last() == hex(n / 16, upper));
        assert(s[0] == hex(n / 16, upper)[0]);
        assert(s.last() == hex_digit(n % 16, upper));
        assert(n == (n / 16) * 16 + n % 16);
    }
}

/// `hex_fixed` writes exactly `w` digits, which denote `n` modulo `16^w`.
pub proof fn lemma_hex_fixed(n: nat, w: nat, upper: bool)
    ensures
        hex_fixed(n, w, upper).len() == w,
        all_digits(hex_fixed(n, w, upper), upper),
        hex_value(hex_fixed(n, w, upper)) == n % (pow(16, w) as nat),
    decreases w,
{
    reveal(pow);
    lemma_pow_positive(16, w);
    if w == 0 {
        assert(pow(16, 0) == 1);
    } else {
        let v = (w - 1) as nat;
        lemma_hex_fixed(n / 16, v, upper);
        lemma_hex_digit(n % 16, upper);
        lemma_all_digits_push(hex_fixed(n / 16, v, upper), n % 16, upper);
        lemma_pow_positive(16, v);
        assert(pow(16, w) == 16 * pow(16, v));
        assert(hex_fixed(n, w, upper).drop_last() == hex_fixed(n / 16, v, upper));
        lemma_breakdown(n as int, 16, pow(16, v));
    }
}

} // verus!

verus! {

/// The pieces joined back with `sep` between them.
pub open spec fn join(ts: Seq<Seq<char>>, sep: char) -> Seq<char>
    decreases ts.len(),
{
    if ts.len() <= 1 {
        if ts.len() == 1 { ts[0] } else { Seq::empty() }
    } else {
        join(ts.drop_last(), sep).push(sep) + ts.last()
    }
}

proof fn lemma_join_extend_last(ts: Seq<Seq<char>>, c: char, sep: char)
    requires
        ts.len() >= 1,
    ensures
        join(ts.update(ts.len() - 1, ts.last().push(c)), sep) == join(ts, sep).push(c),
{
    let us = ts.update(ts.len() - 1, ts.last().push(c));
    if ts.len() == 1 {
        assert(us[0] == ts[0].push(c));
    } else {
        assert(us.drop_last() =~= ts.drop_last());
        assert(join(ts.drop_last(), sep).push(sep) + ts.last().push(c) =~= (join(ts.drop_last(), sep).push(sep)
            + ts.last()).push(c));
    }
}

/// Joining the pieces of `s` with the separator gives `s` back.
pub proof fn lemma_join_split(s: Seq<char>, sep: char)
    ensures
        join(split(s, sep), sep) == s,
    decreases s.len(),
{
    if s.len() == 0 {
        assert(split(s, sep) =~= seq![Seq::<char>::empty()]);
        assert(s =~= Seq::<char>::empty());
    } else {
        let p = split(s.drop_last(), sep);
        lemma_join_split(s.drop_last(), sep);
        lemma_split_nonempty(s.drop_last(), sep);
        if s.last() == sep {
            let q = p.push(Seq::empty());
            assert(q.drop_last() =~= p);
            assert(join(p, sep).push(sep) + Seq::<char>::empty() =~= s);
        } else {
            lemma_join_extend_last(p, s.last(), sep);
            assert(s.drop_last().push(s.last()) =~= s);
        }
    }
}

} // verus!
