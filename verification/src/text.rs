//! Small text utilities over `String` with contracts over `Seq<char>`:
//! decimal rendering of unsigned numbers and splitting on a separator.

use vstd::prelude::*;

verus! {

/// The character of a decimal digit `d < 10`.
pub open spec fn digit_char(d: nat) -> char {
    if d == 0 { '0' }
    else if d == 1 { '1' }
    else if d == 2 { '2' }
    else if d == 3 { '3' }
    else if d == 4 { '4' }
    else if d == 5 { '5' }
    else if d == 6 { '6' }
    else if d == 7 { '7' }
    else if d == 8 { '8' }
    else { '9' }
}

/// The decimal representation of `n`, without leading zeros ("0" for zero).
pub open spec fn decimal(n: nat) -> Seq<char>
    decreases n,
{
    if n < 10 {
        seq![digit_char(n)]
    } else {
        decimal(n / 10).push(digit_char(n % 10))
    }
}

/// Whether `c` is a decimal digit.
pub open spec fn is_digit(c: char) -> bool {
    '0' <= c && c <= '9'
}

/// The number a run of decimal digits stands for (most significant first).
pub open spec fn digits_value(s: Seq<char>) -> int
    decreases s.len(),
{
    if s.len() == 0 {
        0
    } else {
        digits_value(s.drop_last()) * 10 + ((s.last() as int) - ('0' as int))
    }
}

/// The decimal representation of `n` is a non-empty run of digits that
/// reads back as `n`.
pub proof fn lemma_decimal_reads_back(n: nat)
    ensures
        decimal(n).len() >= 1,
        forall|i: int| 0 <= i < decimal(n).len() ==> is_digit(#[trigger] decimal(n)[i]),
        digits_value(decimal(n)) == n,
    decreases n,
{
    let d = (n % 10) as nat;
    assert((digit_char(d) as int) - ('0' as int) == d && is_digit(digit_char(d)));
    if n < 10 {
        assert(decimal(n).drop_last() =~= Seq::<char>::empty());
        assert(digits_value(Seq::<char>::empty()) == 0);
        assert(decimal(n).last() == digit_char(d));
        assert(digits_value(decimal(n)) == 0 * 10 + d);
    } else {
        lemma_decimal_reads_back(n / 10);
        let prev = decimal(n / 10);
        assert(decimal(n) == prev.push(digit_char(d)));
        assert(decimal(n).drop_last() =~= prev);
        assert(decimal(n).last() == digit_char(d));
        assert(digits_value(decimal(n)) == digits_value(prev) * 10 + d);
        assert(n == (n / 10) * 10 + d);
        assert forall|i: int| 0 <= i < decimal(n).len() implies is_digit(#[trigger] decimal(n)[i]) by {
            if i < prev.len() {
                assert(decimal(n)[i] == prev[i]);
            }
        }
    }
}

fn digit_str(d: usize) -> (s: &'static str)
    requires
        d < 10,
    ensures
        s@ == seq![digit_char(d as nat)],
{
    proof {
        reveal_strlit("0");
        reveal_strlit("1");
        reveal_strlit("2");
        reveal_strlit("3");
        reveal_strlit("4");
        reveal_strlit("5");
        reveal_strlit("6");
        reveal_strlit("7");
        reveal_strlit("8");
        reveal_strlit("9");
    }
    if d == 0 { "0" }
    else if d == 1 { "1" }
    else if d == 2 { "2" }
    else if d == 3 { "3" }
    else if d == 4 { "4" }
    else if d == 5 { "5" }
    else if d == 6 { "6" }
    else if d == 7 { "7" }
    else if d == 8 { "8" }
    else { "9" }
}

/// Appends the decimal representation of `n` to `out`.
pub fn push_decimal(out: &mut String, n: usize)
    ensures
        final(out)@ == old(out)@ + decimal(n as nat),
    decreases n,
{
    if n < 10 {
        out.append(digit_str(n));
    } else {
        push_decimal(out, n / 10);
        out.append(digit_str(n % 10));
        proof {
            assert(decimal(n as nat) == decimal((n / 10) as nat).push(digit_char((n % 10) as nat)));
        }
    }
}

/// The decimal representation of `n` as a new string.
pub fn decimal_string(n: usize) -> (s: String)
    ensures
        s@ == decimal(n as nat),
{
    let mut s = String::new();
    push_decimal(&mut s, n);
    s
}


/// The views of a sequence of strings.
pub open spec fn string_views(v: Seq<String>) -> Seq<Seq<char>> {
    v.map_values(|x: String| x@)
}

/// The pieces of `s` between occurrences of `sep`, in order, as `str::split`
/// with a `char` pattern yields them: `n` separators give `n + 1` pieces.
pub open spec fn split_on(s: Seq<char>, sep: char) -> Seq<Seq<char>>
    decreases s.len(),
{
    if s.len() == 0 {
        seq![Seq::<char>::empty()]
    } else {
        let prev = split_on(s.drop_last(), sep);
        if s.last() == sep {
            prev.push(Seq::<char>::empty())
        } else {
            prev.update(prev.len() - 1, prev.last().push(s.last()))
        }
    }
}

/// The pieces joined back together with `sep` between neighbours.
pub open spec fn join_with(pieces: Seq<Seq<char>>, sep: char) -> Seq<char>
    decreases pieces.len(),
{
    if pieces.len() == 0 {
        Seq::<char>::empty()
    } else if pieces.len() == 1 {
        pieces[0]
    } else {
        join_with(pieces.drop_last(), sep).push(sep) + pieces.last()
    }
}

proof fn lemma_split_nonempty(s: Seq<char>, sep: char)
    ensures
        split_on(s, sep).len() >= 1,
    decreases s.len(),
{
    if s.len() > 0 {
        lemma_split_nonempty(s.drop_last(), sep);
    }
}

/// Splitting loses nothing and invents nothing: joining the pieces of `s`
/// with the separator gives `s` back, and no piece holds the separator.
pub proof fn lemma_split_join(s: Seq<char>, sep: char)
    ensures
        split_on(s, sep).len() >= 1,
        join_with(split_on(s, sep), sep) == s,
        forall|i: int| 0 <= i < split_on(s, sep).len() ==> !(#[trigger] split_on(s, sep)[i]).contains(sep),
    decreases s.len(),
{
    lemma_split_nonempty(s, sep);
    if s.len() == 0 {
        assert(!Seq::<char>::empty().contains(sep));
    } else {
        let t = s.drop_last();
        let c = s.last();
        lemma_split_join(t, sep);
        let prev = split_on(t, sep);
        let cur = split_on(s, sep);
        if c == sep {
            assert(cur.drop_last() =~= prev);
            assert(join_with(cur, sep) =~= join_with(prev, sep).push(sep) + Seq::<char>::empty());
            assert(s =~= t.push(sep));
            assert forall|i: int| 0 <= i < cur.len() implies !(#[trigger] cur[i]).contains(sep) by {
                if i < prev.len() {
                    assert(cur[i] == prev[i]);
                } else {
                    assert(cur[i] =~= Seq::<char>::empty());
                }
            }
        } else {
            let last = prev.last().push(c);
            assert(cur.last() == last);
            if prev.len() == 1 {
                assert(join_with(prev, sep) == prev[0]);
                assert(join_with(cur, sep) == cur[0]);
                assert(s =~= t.push(c));
            } else {
                assert(cur.drop_last() =~= prev.drop_last());
                assert(join_with(cur, sep) == join_with(prev.drop_last(), sep).push(sep) + last);
                assert(join_with(prev, sep) == join_with(prev.drop_last(), sep).push(sep) + prev.last());
                assert(s =~= t.push(c));
                assert(join_with(prev.drop_last(), sep).push(sep) + last
                    =~= (join_with(prev.drop_last(), sep).push(sep) + prev.last()).push(c));
            }
            assert forall|i: int| 0 <= i < cur.len() implies !(#[trigger] cur[i]).contains(sep) by {
                if i < prev.len() - 1 {
                    assert(cur[i] == prev[i]);
                } else {
                    assert(cur[i] == last);
                    if last.contains(sep) {
                        let k = choose|k: int| 0 <= k < last.len() && last[k] == sep;
                        if k < prev.last().len() {
                            assert(prev[prev.len() - 1][k] == sep);
                            assert(prev[prev.len() - 1].contains(sep));
                        }
                    }
                }
            }
        }
    }
}

/// Splits `s` at every occurrence of `sep`.
pub fn split_string(s: &str, sep: char) -> (pieces: Vec<String>)
    ensures
        string_views(pieces@) == split_on(s@, sep),
{
    let n = s.unicode_len();
    let mut pieces: Vec<String> = Vec::new();
    let mut start: usize = 0;
    let mut i: usize = 0;
    assert(s@.take(0) =~= Seq::<char>::empty());
    while i < n
        invariant
            n == s@.len(),
            start <= i <= n,
            string_views(pieces@).push(s@.subrange(start as int, i as int)) == split_on(s@.take(i as int), sep),
        decreases n - i,
    {
        let c = s.get_char(i);
        let ghost prev = split_on(s@.take(i as int), sep);
        assert(s@.take(i as int + 1).drop_last() =~= s@.take(i as int));
        assert(s@.take(i as int + 1).last() == c);
        if c == sep {
            let piece = s.substring_char(start, i).to_owned();
            let ghost old_pieces = pieces@;
            pieces.push(piece);
            assert(string_views(pieces@) =~= string_views(old_pieces).push(s@.subrange(start as int, i as int)));
            start = i + 1;
            assert(s@.subrange(start as int, i as int + 1) =~= Seq::<char>::empty());
        } else {
            assert(s@.subrange(start as int, i as int + 1) =~= s@.subrange(start as int, i as int).push(c));
        }
        i = i + 1;
    }
    assert(s@.take(n as int) =~= s@);
    let last = s.substring_char(start, n).to_owned();
    let ghost old_pieces = pieces@;
    pieces.push(last);
    assert(string_views(pieces@) =~= string_views(old_pieces).push(s@.subrange(start as int, n as int)));
    pieces
}

} // verus!
