//! Text helpers. A string is modelled by the sequence of its characters.

use vstd::prelude::*;
use vstd::string::*;

verus! {

broadcast use vstd::seq::group_seq_axioms;

/// `String::push`: the character is appended at the end.
pub assume_specification[ String::push ](s: &mut String, c: char)
    ensures
        final(s)@ == old(s)@.push(c),
;

/// The characters with Unicode's `White_Space` property.
pub open spec fn white_space(c: char) -> bool {
    let n = c as int;
    ||| 0x9 <= n <= 0xd
    ||| n == 0x20
    ||| n == 0x85
    ||| n == 0xa0
    ||| n == 0x1680
    ||| 0x2000 <= n <= 0x200a
    ||| n == 0x2028
    ||| n == 0x2029
    ||| n == 0x202f
    ||| n == 0x205f
    ||| n == 0x3000
}

/// Whether a character has Unicode's `White_Space` property.
pub fn is_white_space(c: char) -> (b: bool)
    ensures
        b == white_space(c),
{
    let n = c as u32;
    (0x9 <= n && n <= 0xd) || n == 0x20 || n == 0x85 || n == 0xa0 || n == 0x1680 || (0x2000 <= n
        && n <= 0x200a) || n == 0x2028 || n == 0x2029 || n == 0x202f || n == 0x205f || n == 0x3000
}

/// The characters of each string of a list.
pub open spec fn texts(s: Seq<String>) -> Seq<Seq<char>> {
    Seq::new(s.len(), |i: int| s[i]@)
}

/// The characters of an optional string.
pub open spec fn opt_text(s: Option<String>) -> Option<Seq<char>> {
    match s {
        Some(t) => Some(t@),
        None => None,
    }
}

/// The parts in order, with `sep` between each two.
pub open spec fn joined(parts: Seq<Seq<char>>, sep: Seq<char>) -> Seq<char>
    decreases parts.len(),
{
    if parts.len() == 0 {
        Seq::empty()
    } else if parts.len() == 1 {
        parts[0]
    } else {
        joined(parts.drop_last(), sep) + sep + parts.last()
    }
}

/// The pieces of `s` between the occurrences of `sep`: one more than there are occurrences.
pub open spec fn pieces(s: Seq<char>, sep: char) -> Seq<Seq<char>>
    decreases s.len(),
{
    if s.len() == 0 {
        seq![Seq::empty()]
    } else {
        let before = pieces(s.drop_last(), sep);
        if s.last() == sep {
            before.push(Seq::empty())
        } else {
            before.drop_last().push(before.last().push(s.last()))
        }
    }
}

/// `s` with every match of `pat` replaced by `to`, matches taken from the left without overlap.
pub open spec fn replaced(s: Seq<char>, pat: Seq<char>, to: Seq<char>) -> Seq<char>
    recommends
        pat.len() > 0,
    decreases s.len(),
{
    if pat.len() == 0 || s.len() < pat.len() {
        s
    } else if pat.is_prefix_of(s) {
        to + replaced(s.skip(pat.len() as int), pat, to)
    } else {
        seq![s[0]] + replaced(s.skip(1), pat, to)
    }
}

/// The length of the longest prefix of `s` that holds no white space.
pub open spec fn word_len(s: Seq<char>) -> nat
    decreases s.len(),
{
    if s.len() == 0 || white_space(s[0]) {
        0
    } else {
        1 + word_len(s.skip(1))
    }
}

/// The maximal runs of `s` that hold no white space, from left to right.
pub open spec fn words(s: Seq<char>) -> Seq<Seq<char>>
    decreases s.len(),
{
    if s.len() == 0 {
        Seq::empty()
    } else if white_space(s[0]) {
        words(s.skip(1))
    } else if word_len(s) <= s.len() {
        seq![s.take(word_len(s) as int)] + words(s.skip(word_len(s) as int))
    } else {
        Seq::empty()
    }
}

/// The digit for `d` in bases up to sixteen, in lower case.
pub open spec fn digit(d: int) -> char {
    if d == 0 { '0' }
    else if d == 1 { '1' }
    else if d == 2 { '2' }
    else if d == 3 { '3' }
    else if d == 4 { '4' }
    else if d == 5 { '5' }
    else if d == 6 { '6' }
    else if d == 7 { '7' }
    else if d == 8 { '8' }
    else if d == 9 { '9' }
    else if d == 10 { 'a' }
    else if d == 11 { 'b' }
    else if d == 12 { 'c' }
    else if d == 13 { 'd' }
    else if d == 14 { 'e' }
    else { 'f' }
}

/// `n` in decimal, without leading zeros.
pub open spec fn decimal_text(n: nat) -> Seq<char>
    decreases n,
{
    if n < 10 {
        seq![digit(n as int)]
    } else {
        decimal_text(n / 10).push(digit((n % 10) as int))
    }
}

/// `s` with spaces put in front until it has `width` characters.
pub open spec fn padded(s: Seq<char>, width: int) -> Seq<char> {
    if s.len() >= width {
        s
    } else {
        Seq::new((width - s.len()) as nat, |i: int| ' ') + s
    }
}

/// `s` with each `from` turned into `to`.
pub open spec fn char_swapped(s: Seq<char>, from: char, to: char) -> Seq<char> {
    Seq::new(s.len(), |i: int| if s[i] == from { to } else { s[i] })
}

/// The characters of `s`, one by one.
pub fn chars_of(s: &str) -> (v: Vec<char>)
    ensures
        v@ == s@,
{
    let mut v: Vec<char> = Vec::new();
    for c in it: s.chars()
        invariant
            v@ == it.seq().take(it.index()),
    {
        v.push(c);
    }
    v
}

/// Whether two strings hold the same characters.
pub fn same_text(a: &str, b: &str) -> (r: bool)
    ensures
        r == (a@ == b@),
{
    a.to_string() == b.to_string()
}

/// The characters of `s` from `from` up to but not including `to`.
pub fn slice(s: &str, from: usize, to: usize) -> (r: String)
    requires
        from <= to <= s@.len(),
    ensures
        r@ == s@.subrange(from as int, to as int),
{
    s.substring_char(from, to).to_string()
}

/// Whether `s` begins with `prefix`.
pub fn starts_with(s: &str, prefix: &str) -> (r: bool)
    ensures
        r == prefix@.is_prefix_of(s@),
{
    let c = chars_of(s);
    let p = chars_of(prefix);
    matches_at(&c, 0, &p)
}

/// Whether `pat` stands in `c` at `at`.
fn matches_at(c: &Vec<char>, at: usize, pat: &Vec<char>) -> (r: bool)
    requires
        at <= c@.len(),
    ensures
        r == pat@.is_prefix_of(c@.skip(at as int)),
{
    if c.len() - at < pat.len() {
        return false;
    }
    let mut j: usize = 0;
    while j < pat.len()
        invariant
            at + pat@.len() <= c.len(),
            j <= pat@.len(),
            forall|k: int| 0 <= k < j ==> pat@[k] == c@[at + k],
        decreases pat@.len() - j,
    {
        if c[at + j] != pat[j] {
            assert(c@.skip(at as int)[j as int] != pat@[j as int]);
            return false;
        }
        j += 1;
    }
    assert(pat@ =~= c@.skip(at as int).subrange(0, pat@.len() as int));
    true
}

/// Joins the parts with `sep` between each two.
pub fn join(parts: &Vec<String>, sep: &str) -> (r: String)
    ensures
        r@ == joined(texts(parts@), sep@),
{
    let mut out = String::new();
    let mut i: usize = 0;
    let ghost all = texts(parts@);
    while i < parts.len()
        invariant
            i <= parts@.len(),
            all == texts(parts@),
            out@ == joined(all.take(i as int), sep@),
        decreases parts@.len() - i,
    {
        if i > 0 {
            out.append(sep);
        }
        out.append(parts[i].as_str());
        proof {
            let next = all.take(i + 1);
            assert(next.drop_last() =~= all.take(i as int));
            assert(next.last() == parts@[i as int]@);
        }
        i += 1;
    }
    assert(all.take(i as int) =~= all);
    out
}

/// Splits `s` at each occurrence of `sep`.
pub fn split(s: &str, sep: char) -> (r: Vec<String>)
    ensures
        texts(r@) == pieces(s@, sep),
        r@.len() >= 1,
{
    let c = chars_of(s);
    let mut out: Vec<String> = Vec::new();
    let mut start: usize = 0;
    let mut i: usize = 0;
    proof {
        assert(s@.take(0) =~= Seq::<char>::empty());
        assert(s@.subrange(0, 0) =~= Seq::<char>::empty());
        assert(pieces(s@.take(0), sep) =~= texts(out@).push(s@.subrange(0, 0)));
    }
    while i < c.len()
        invariant
            c@ == s@,
            start <= i <= c@.len(),
            pieces(s@.take(i as int), sep) == texts(out@).push(s@.subrange(start as int, i as int)),
        decreases c@.len() - i,
    {
        let ghost done = texts(out@);
        proof {
            assert(s@.take(i + 1).drop_last() =~= s@.take(i as int));
            assert(s@.take(i + 1).last() == c@[i as int]);
            assert(done.push(s@.subrange(start as int, i as int)).drop_last() =~= done);
        }
        if c[i] == sep {
            out.push(slice(s, start, i));
            start = i + 1;
        }
        i += 1;
        proof {
            if c@[i - 1] == sep {
                assert(s@.subrange(start as int, i as int) =~= Seq::<char>::empty());
            } else {
                assert(s@.subrange(start as int, i as int) =~= s@.subrange(start as int, i - 1).push(c@[i - 1]));
            }
        }
    }
    out.push(slice(s, start, c.len()));
    proof {
        assert(s@.take(i as int) =~= s@);
    }
    out
}

/// Replaces every match of `pat` in `s` by `to`, matches taken from the left without overlap.
pub fn replace(s: &str, pat: &str, to: &str) -> (r: String)
    requires
        pat@.len() > 0,
    ensures
        r@ == replaced(s@, pat@, to@),
{
    let c = chars_of(s);
    let p = chars_of(pat);
    let mut out = String::new();
    let mut start: usize = 0;
    let mut i: usize = 0;
    proof {
        assert(s@.skip(0) =~= s@);
        assert(replaced(s@, pat@, to@) =~= out@ + s@.subrange(0, 0) + replaced(s@.skip(0), pat@, to@));
    }
    while i < c.len() && p.len() <= c.len() - i
        invariant
            c@ == s@,
            p@ == pat@,
            p@.len() > 0,
            start <= i <= c.len(),
            replaced(s@, pat@, to@) == out@ + s@.subrange(start as int, i as int) + replaced(
                s@.skip(i as int),
                pat@,
                to@,
            ),
        decreases c@.len() - i,
    {
        let ghost rest = s@.skip(i as int);
        let ghost before = out@ + s@.subrange(start as int, i as int);
        if matches_at(&c, i, &p) {
            out.append(slice(s, start, i).as_str());
            out.append(to);
            i += p.len();
            start = i;
            proof {
                assert(rest.skip(p@.len() as int) =~= s@.skip(i as int));
                assert(out@ + s@.subrange(start as int, i as int) =~= before + to@);
                assert(out@ + s@.subrange(start as int, i as int) + replaced(s@.skip(i as int), pat@, to@)
                    =~= before + (to@ + replaced(s@.skip(i as int), pat@, to@)));
            }
        } else {
            i += 1;
            proof {
                assert(rest.skip(1) =~= s@.skip(i as int));
                assert(out@ + s@.subrange(start as int, i as int) =~= before + seq![rest[0]]);
                assert(out@ + s@.subrange(start as int, i as int) + replaced(s@.skip(i as int), pat@, to@)
                    =~= before + (seq![rest[0]] + replaced(s@.skip(i as int), pat@, to@)));
            }
        }
    }
    proof {
        assert(replaced(s@.skip(i as int), pat@, to@) == s@.skip(i as int));
        assert(s@.subrange(start as int, i as int) + s@.skip(i as int) =~= s@.subrange(
            start as int,
            s@.len() as int,
        ));
        assert(out@ + s@.subrange(start as int, i as int) + s@.skip(i as int) =~= out@ + s@.subrange(
            start as int,
            s@.len() as int,
        ));
    }
    out.append(slice(s, start, c.len()).as_str());
    out
}

/// The maximal runs of `s` that hold no white space.
pub fn split_whitespace(s: &str) -> (r: Vec<String>)
    ensures
        texts(r@) == words(s@),
{
    let c = chars_of(s);
    let mut out: Vec<String> = Vec::new();
    let mut i: usize = 0;
    proof {
        assert(s@.skip(0) =~= s@);
        assert(words(s@) =~= texts(out@) + words(s@.skip(0)));
    }
    while i < c.len()
        invariant
            c@ == s@,
            i <= c.len(),
            words(s@) == texts(out@) + words(s@.skip(i as int)),
        decreases c@.len() - i,
    {
        let ghost rest = s@.skip(i as int);
        if is_white_space(c[i]) {
            i += 1;
            assert(rest.skip(1) =~= s@.skip(i as int));
        } else {
            let start = i;
            let ghost done = texts(out@);
            assert(rest.skip(0) =~= rest);
            while i < c.len() && !is_white_space(c[i])
                invariant
                    c@ == s@,
                    start <= i <= c.len(),
                    rest == s@.skip(start as int),
                    word_len(rest) == (i - start) + word_len(s@.skip(i as int)),
                decreases c@.len() - i,
            {
                assert(s@.skip(i as int).skip(1) =~= s@.skip(i + 1));
                i += 1;
            }
            proof {
                assert(word_len(s@.skip(i as int)) == 0);
                assert(rest.take(i - start) =~= s@.subrange(start as int, i as int));
                assert(rest.skip(i - start) =~= s@.skip(i as int));
            }
            out.push(slice(s, start, i));
            proof {
                assert(texts(out@) =~= done.push(s@.subrange(start as int, i as int)));
                assert(texts(out@) + words(s@.skip(i as int)) =~= done + (seq![rest.take(i - start)] + words(
                    s@.skip(i as int),
                )));
            }
        }
    }
    proof {
        assert(s@.skip(i as int) =~= Seq::<char>::empty());
        assert(texts(out@) + words(s@.skip(i as int)) =~= texts(out@));
    }
    out
}

/// The digit for `d`, in lower case.
pub fn digit_char(d: u8) -> (c: char)
    requires
        d < 16,
    ensures
        c == digit(d as int),
{
    match d {
        0 => '0',
        1 => '1',
        2 => '2',
        3 => '3',
        4 => '4',
        5 => '5',
        6 => '6',
        7 => '7',
        8 => '8',
        9 => '9',
        10 => 'a',
        11 => 'b',
        12 => 'c',
        13 => 'd',
        14 => 'e',
        _ => 'f',
    }
}

/// `n` in decimal.
pub fn decimal(n: u64) -> (r: String)
    ensures
        r@ == decimal_text(n as nat),
    decreases n,
{
    let mut out = if n < 10 {
        String::new()
    } else {
        decimal(n / 10)
    };
    out.push(digit_char((n % 10) as u8));
    assert(n < 10 ==> out@ =~= seq![digit(n as int)]);
    out
}

/// `s` with spaces put in front until it has `width` characters.
pub fn pad_left(s: &str, width: usize) -> (r: String)
    ensures
        r@ == padded(s@, width as int),
{
    let have = s.unicode_len();
    let mut out = String::new();
    if have < width {
        let missing: usize = width - have;
        let mut i: usize = 0;
        while i < missing
            invariant
                i <= missing,
                out@ == Seq::new(i as nat, |k: int| ' '),
            decreases missing - i,
        {
            out.push(' ');
            i += 1;
            assert(out@ =~= Seq::new(i as nat, |k: int| ' '));
        }
    }
    out.append(s);
    assert(out@ =~= padded(s@, width as int));
    out
}

/// `s` with each `from` turned into `to`.
pub fn swap_char(s: &str, from: char, to: char) -> (r: String)
    ensures
        r@ == char_swapped(s@, from, to),
{
    let c = chars_of(s);
    let mut out = String::new();
    let mut i: usize = 0;
    while i < c.len()
        invariant
            c@ == s@,
            i <= c.len(),
            out@ == char_swapped(s@, from, to).take(i as int),
        decreases c@.len() - i,
    {
        if c[i] == from {
            out.push(to);
        } else {
            out.push(c[i]);
        }
        i += 1;
        assert(out@ =~= char_swapped(s@, from, to).take(i as int));
    }
    assert(char_swapped(s@, from, to).take(i as int) =~= char_swapped(s@, from, to));
    out
}

// ---- what the operations promise --------------------------------------------

/// The number that a text of decimal digits stands for.
pub open spec fn number_of(s: Seq<char>) -> int
    decreases s.len(),
{
    if s.len() == 0 {
        0
    } else {
        10 * number_of(s.drop_last()) + (s.last() as int - '0' as int)
    }
}

/// A decimal text stands for its number, has digits alone, and begins with a zero only where the
/// number is zero.
pub proof fn law_decimal_stands_for_its_number(n: nat)
    ensures
        number_of(decimal_text(n)) == n,
        decimal_text(n).len() > 0,
        forall|i: int|
            0 <= i < decimal_text(n).len() ==> '0' <= #[trigger] decimal_text(n)[i] <= '9',
        n > 0 ==> decimal_text(n)[0] != '0',
    decreases n,
{
    let t = decimal_text(n);
    if n < 10 {
        assert(t.drop_last() =~= Seq::empty());
        assert(number_of(t.drop_last()) == 0);
    } else {
        law_decimal_stands_for_its_number(n / 10);
        assert(t.drop_last() =~= decimal_text(n / 10));
        assert forall|i: int| 0 <= i < t.len() implies '0' <= #[trigger] t[i] <= '9' by {
            if i < t.len() - 1 {
                assert(t[i] == decimal_text(n / 10)[i]);
            }
        }
    }
}

/// Different numbers have different decimal texts.
pub proof fn law_decimals_differ(m: nat, n: nat)
    requires
        m != n,
    ensures
        decimal_text(m) != decimal_text(n),
{
    law_decimal_stands_for_its_number(m);
    law_decimal_stands_for_its_number(n);
}

/// Digits below ten are those of decimal texts; from ten on they are the letters from `a`.
pub proof fn law_digits_count_up(d: int)
    requires
        0 <= d < 16,
    ensures
        d < 10 ==> digit(d) as int == '0' as int + d,
        d >= 10 ==> digit(d) as int == 'a' as int + (d - 10),
{
}

/// Padding only puts spaces in front, and no more than are missing.
pub proof fn law_padding_puts_spaces_in_front(s: Seq<char>, width: int)
    ensures
        s.is_suffix_of(padded(s, width)),
        s.len() >= width ==> padded(s, width) == s,
        s.len() < width ==> padded(s, width).len() == width,
        forall|i: int|
            0 <= i < padded(s, width).len() - s.len() ==> #[trigger] padded(s, width)[i] == ' ',
{
    let p = padded(s, width);
    assert(p.subrange(p.len() - s.len(), p.len() as int) =~= s);
}

/// Swapping a character leaves every other where it is.
pub proof fn law_swap_changes_one_character(s: Seq<char>, from: char, to: char, i: int)
    requires
        0 <= i < s.len(),
    ensures
        char_swapped(s, from, to).len() == s.len(),
        s[i] == from ==> char_swapped(s, from, to)[i] == to,
        s[i] != from ==> char_swapped(s, from, to)[i] == s[i],
{
}

/// Joining one part gives that part, and joining one more appends the separator and that part.
pub proof fn law_joining_appends(parts: Seq<Seq<char>>, part: Seq<char>, sep: Seq<char>)
    ensures
        joined(Seq::empty(), sep) == Seq::<char>::empty(),
        joined(seq![part], sep) == part,
        parts.len() > 0 ==> joined(parts.push(part), sep) == joined(parts, sep) + sep + part,
{
    assert(parts.push(part).drop_last() =~= parts);
    assert(joined(Seq::<Seq<char>>::empty(), sep) =~= Seq::<char>::empty());
}

/// Splitting and joining by the same character undo each other: the pieces hold no separator, and
/// joined by it they are the text again.
pub proof fn law_pieces_join_to_the_text(s: Seq<char>, sep: char)
    ensures
        pieces(s, sep).len() > 0,
        joined(pieces(s, sep), seq![sep]) == s,
        forall|i: int| 0 <= i < pieces(s, sep).len() ==> !(#[trigger] pieces(s, sep)[i]).contains(sep),
    decreases s.len(),
{
    let all = pieces(s, sep);
    if s.len() == 0 {
        assert(s =~= Seq::empty());
    } else {
        let front = s.drop_last();
        let before = pieces(front, sep);
        law_pieces_join_to_the_text(front, sep);
        assert(front.push(s.last()) =~= s);
        if s.last() == sep {
            law_joining_appends(before, Seq::empty(), seq![sep]);
            assert(joined(all, seq![sep]) =~= s);
            assert forall|i: int| 0 <= i < all.len() implies !(#[trigger] all[i]).contains(sep) by {
                if i < before.len() {
                    assert(all[i] == before[i]);
                }
            }
        } else {
            let init = before.drop_last();
            let last = before.last();
            assert(init.push(last) =~= before);
            assert(all == init.push(last.push(s.last())));
            if init.len() == 0 {
                assert(before =~= seq![last]);
                assert(all =~= seq![last.push(s.last())]);
                law_joining_appends(init, last, seq![sep]);
                law_joining_appends(init, last.push(s.last()), seq![sep]);
            } else {
                law_joining_appends(init, last, seq![sep]);
                law_joining_appends(init, last.push(s.last()), seq![sep]);
                assert(joined(all, seq![sep]) =~= s);
            }
            assert forall|i: int| 0 <= i < all.len() implies !(#[trigger] all[i]).contains(sep) by {
                if i < before.len() - 1 {
                    assert(all[i] == before[i]);
                } else {
                    assert(!before[before.len() - 1].contains(sep));
                    assert forall|k: int| 0 <= k < all[i].len() implies all[i][k] != sep by {
                        if k < last.len() {
                            assert(last.contains(last[k]));
                        }
                    }
                }
            }
        }
    }
}

/// Text in which the pattern stands nowhere is kept.
pub proof fn law_replacing_nothing_keeps_the_text(s: Seq<char>, pat: Seq<char>, to: Seq<char>)
    requires
        pat.len() > 0,
        forall|i: int| 0 <= i < s.len() ==> !pat.is_prefix_of(#[trigger] s.skip(i)),
    ensures
        replaced(s, pat, to) == s,
    decreases s.len(),
{
    if s.len() >= pat.len() {
        assert(s.skip(0) =~= s);
        assert(!pat.is_prefix_of(s.skip(0)));
        let rest = s.skip(1);
        assert forall|i: int| 0 <= i < rest.len() implies !pat.is_prefix_of(#[trigger] rest.skip(i)) by {
            assert(rest.skip(i) =~= s.skip(i + 1));
        }
        law_replacing_nothing_keeps_the_text(rest, pat, to);
        assert(seq![s[0]] + rest =~= s);
    }
}

/// The first place where the pattern stands is replaced, and the rest after it is treated alike.
pub proof fn law_first_match_is_replaced(
    before: Seq<char>,
    after: Seq<char>,
    pat: Seq<char>,
    to: Seq<char>,
)
    requires
        pat.len() > 0,
        forall|i: int|
            0 <= i < before.len() ==> !pat.is_prefix_of(#[trigger] (before + pat + after).skip(i)),
    ensures
        replaced(before + pat + after, pat, to) == before + to + replaced(after, pat, to),
    decreases before.len(),
{
    let s = before + pat + after;
    if before.len() == 0 {
        assert(s =~= pat + after);
        assert(s.subrange(0, pat.len() as int) =~= pat);
        assert(s.skip(pat.len() as int) =~= after);
        assert(before + to + replaced(after, pat, to) =~= to + replaced(after, pat, to));
    } else {
        assert(s.skip(0) =~= s);
        assert(!pat.is_prefix_of(s.skip(0)));
        let rest = before.skip(1);
        assert(s.skip(1) =~= rest + pat + after);
        assert forall|i: int| 0 <= i < rest.len() implies !pat.is_prefix_of(
            #[trigger] (rest + pat + after).skip(i),
        ) by {
            assert((rest + pat + after).skip(i) =~= s.skip(i + 1));
        }
        law_first_match_is_replaced(rest, after, pat, to);
        assert(seq![s[0]] + (rest + to + replaced(after, pat, to)) =~= before + to + replaced(
            after,
            pat,
            to,
        ));
    }
}

proof fn lemma_word_len(w: Seq<char>, rest: Seq<char>)
    requires
        forall|i: int| 0 <= i < w.len() ==> !white_space(#[trigger] w[i]),
        rest.len() > 0 ==> white_space(rest[0]),
    ensures
        word_len(w + rest) == w.len(),
    decreases w.len(),
{
    if w.len() == 0 {
        assert(w + rest =~= rest);
    } else {
        let v = w.skip(1);
        assert((w + rest).skip(1) =~= v + rest);
        assert forall|i: int| 0 <= i < v.len() implies !white_space(#[trigger] v[i]) by {
            assert(v[i] == w[i + 1]);
        }
        assert(!white_space(w[0]));
        lemma_word_len(v, rest);
    }
}

/// White space separates words and is otherwise dropped: a text that is one run without white
/// space is one word; where such a run is followed by white space, it is the first word and the
/// words of the rest follow; white space in front does not count.
pub proof fn law_words_are_the_runs_between_white_space(w: Seq<char>, space: char, rest: Seq<char>)
    requires
        w.len() > 0,
        forall|i: int| 0 <= i < w.len() ==> !white_space(#[trigger] w[i]),
        white_space(space),
    ensures
        words(Seq::empty()) == Seq::<Seq<char>>::empty(),
        words(w) == seq![w],
        words(w + seq![space] + rest) == seq![w] + words(rest),
        words(seq![space] + rest) == words(rest),
{
    assert(words(Seq::<char>::empty()) =~= Seq::<Seq<char>>::empty());
    assert(!white_space(w[0]));
    lemma_word_len(w, Seq::empty());
    assert(w + Seq::<char>::empty() =~= w);
    assert(w.take(w.len() as int) =~= w);
    assert(w.skip(w.len() as int) =~= Seq::empty());
    assert(words(w) =~= seq![w]);
    let tail = seq![space] + rest;
    assert(tail.skip(1) =~= rest);
    assert(words(tail) == words(rest));
    let s = w + seq![space] + rest;
    assert(s =~= w + tail);
    lemma_word_len(w, tail);
    assert(s[0] == w[0]);
    assert(s.take(w.len() as int) =~= w);
    assert(s.skip(w.len() as int) =~= tail);
}

/// The texts of a list are those of its strings, in order; that of an optional string is its own.
pub proof fn law_texts_are_those_of_the_strings(s: Seq<String>, i: int, o: Option<String>)
    ensures
        texts(s).len() == s.len(),
        0 <= i < s.len() ==> texts(s)[i] == s[i]@,
        o is None ==> opt_text(o) is None,
        o matches Some(t) ==> opt_text(o) == Some(t@),
{
}

} // verus!
