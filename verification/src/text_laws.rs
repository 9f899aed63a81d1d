//! What holds of cutting, splitting and replacing texts, and of their letters.
use vstd::prelude::*;
use vstd::utf8::is_ascii_chars;
use crate::text::{
    ascii_small, back_cut, back_trimmed, capital_letters, digit, first_at, front_cut,
    front_trimmed, holds, is_space, law_decimal_round_trip, lemma_place_is, occurs_at, parted,
    pieces, replaced, shown, shown_nat, small_letters, trimmed,
};

verus! {

/// A text splits at the first place of a character: what stands before it does
/// not hold the character, and the two parts around it make up the text.
pub proof fn law_parted(a: Seq<char>, c: char, b: Seq<char>)
    requires
        !a.contains(c),
    ensures
        parted(a + seq![c] + b, seq![c]) == Some((a, b)),
        holds(a + seq![c] + b, seq![c]),
{
    let s = a + seq![c] + b;
    let p = seq![c];
    let n = a.len() as int;
    assert(s.subrange(n, n + 1) =~= p);
    assert(occurs_at(s, p, n));
    assert forall|j: int| 0 <= j < n implies !#[trigger] occurs_at(s, p, j) by {
        if occurs_at(s, p, j) {
            assert(s.subrange(j, j + 1)[0] == c);
            assert(a[j] == c);
        }
    }
    lemma_place_is(s, p, n);
    assert(s.take(n) =~= a);
    assert(s.skip(n + 1) =~= b);
}

/// A text that does not hold a character does not split at it.
pub proof fn law_not_parted(s: Seq<char>, c: char)
    requires
        !s.contains(c),
    ensures
        parted(s, seq![c]) is None,
        !holds(s, seq![c]),
        pieces(s, seq![c]) == seq![s],
{
    let p = seq![c];
    assert forall|i: int| !occurs_at(s, p, i) by {
        if occurs_at(s, p, i) {
            assert(s.subrange(i, i + 1)[0] == c);
            assert(s[i] == c);
        }
    }
    assert forall|i: int| !first_at(s, p, i) by {
        assert(!occurs_at(s, p, i));
    }
}

/// The pieces of a text are what stands before the first place of a character
/// and the pieces of what stands after it.
pub proof fn law_pieces(a: Seq<char>, c: char, b: Seq<char>)
    requires
        !a.contains(c),
    ensures
        pieces(a + seq![c] + b, seq![c]) == seq![a] + pieces(b, seq![c]),
{
    law_parted(a, c, b);
}

/// Replacing a character puts the new text in its place and leaves the rest.
pub proof fn law_replaced(a: Seq<char>, c: char, b: Seq<char>, to: Seq<char>)
    requires
        !a.contains(c),
    ensures
        replaced(a + seq![c] + b, seq![c], to) == a + to + replaced(b, seq![c], to),
        replaced(a, seq![c], to) == a,
    decreases a.len(),
{
    let s = a + seq![c] + b;
    let p = seq![c];
    if a.len() == 0 {
        assert(s[0] == c);
        assert(p.is_prefix_of(s)) by {
            assert(s.subrange(0, 1) =~= p);
        }
        assert(s.skip(1) =~= b);
        assert(a + to + replaced(b, p, to) =~= to + replaced(b, p, to));
    } else {
        let t = a.skip(1);
        assert forall|i: int| 0 <= i < t.len() implies t[i] != c by {
            assert(t[i] == a[i + 1]);
            assert(a.contains(a[i + 1]));
        }
        law_replaced(t, c, b, to);
        assert(a.contains(a[0]));
        assert(!p.is_prefix_of(s)) by {
            if p.is_prefix_of(s) {
                assert(s.subrange(0, 1)[0] == c);
            }
        }
        assert(!p.is_prefix_of(a)) by {
            if p.is_prefix_of(a) {
                assert(a.subrange(0, 1)[0] == c);
            }
        }
        assert(s.skip(1) =~= t + p + b);
        assert(seq![a[0]] + (t + to + replaced(b, p, to)) =~= a + to + replaced(b, p, to));
        assert(seq![a[0]] + t =~= a);
    }
}

proof fn lemma_front_trimmed(s: Seq<char>)
    ensures
        front_trimmed(s).len() > 0 ==> !is_space(front_trimmed(s)[0]),
        front_trimmed(s).is_suffix_of(s),
        forall|i: int|
            0 <= i < s.len() - front_trimmed(s).len() ==> is_space(#[trigger] s[i]),
    decreases s.len(),
{
    if s.len() > 0 && is_space(s[0]) {
        let t = s.drop_first();
        lemma_front_trimmed(t);
        let f = front_trimmed(t);
        assert(s.subrange(s.len() - f.len(), s.len() as int) =~= t.subrange(
            t.len() - f.len(),
            t.len() as int,
        ));
        assert forall|i: int| 0 <= i < s.len() - f.len() implies is_space(#[trigger] s[i]) by {
            if i > 0 {
                assert(is_space(t[i - 1]));
            }
        }
    } else {
        assert(s.subrange(0, s.len() as int) =~= s);
    }
}

proof fn lemma_back_trimmed(s: Seq<char>)
    ensures
        back_trimmed(s).len() > 0 ==> !is_space(back_trimmed(s).last()),
        back_trimmed(s).is_prefix_of(s),
        forall|i: int| back_trimmed(s).len() <= i < s.len() ==> is_space(#[trigger] s[i]),
    decreases s.len(),
{
    if s.len() > 0 && is_space(s.last()) {
        let t = s.drop_last();
        lemma_back_trimmed(t);
        let f = back_trimmed(t);
        assert(s.subrange(0, f.len() as int) =~= t.subrange(0, f.len() as int));
        assert forall|i: int| f.len() <= i < s.len() implies is_space(#[trigger] s[i]) by {
            if i < s.len() - 1 {
                assert(is_space(t[i]));
            }
        }
    } else {
        assert(s.subrange(0, s.len() as int) =~= s);
    }
}

/// A trimmed text neither begins nor ends with white space; only white space
/// was taken away, and only around it.
pub proof fn law_trimmed(s: Seq<char>, n: int, t: Seq<char>)
    requires
        t == trimmed(s),
        n == s.len() - front_trimmed(s).len(),
    ensures
        t.len() > 0 ==> !is_space(t[0]) && !is_space(t.last()),
        0 <= n && n + t.len() <= s.len(),
        s.subrange(n, n + t.len()) == t,
        forall|i: int| 0 <= i < n ==> is_space(#[trigger] s[i]),
        forall|i: int| n + t.len() <= i < s.len() ==> is_space(#[trigger] s[i]),
{
    let f = front_trimmed(s);
    lemma_front_trimmed(s);
    lemma_back_trimmed(f);
    assert(f =~= s.subrange(n, s.len() as int));
    assert(t =~= f.subrange(0, t.len() as int));
    assert forall|i: int| n + t.len() <= i < s.len() implies is_space(#[trigger] s[i]) by {
        assert(is_space(f[i - n]));
    }
}

/// A text without white space at its ends stays as it is.
pub proof fn law_trimmed_already(s: Seq<char>)
    requires
        s.len() > 0 ==> !is_space(s[0]) && !is_space(s.last()),
    ensures
        trimmed(s) == s,
{
}

/// Of an ASCII text the letters change their case, and nothing else does.
pub proof fn law_letter_case(s: Seq<char>, i: int)
    requires
        0 <= i < s.len(),
        is_ascii_chars(s),
    ensures
        ascii_small(s).len() == s.len() && small_letters(s) == ascii_small(s)
            && capital_letters(s).len() == s.len(),
        'A' <= s[i] <= 'Z' ==> ascii_small(s)[i] as u32 == s[i] as u32 + 32 && capital_letters(s)[i]
            == s[i],
        'a' <= s[i] <= 'z' ==> capital_letters(s)[i] as u32 == s[i] as u32 - 32 && ascii_small(s)[i]
            == s[i],
        !('A' <= s[i] <= 'Z') && !('a' <= s[i] <= 'z') ==> ascii_small(s)[i] == s[i]
            && capital_letters(s)[i] == s[i],
{
}

/// Cutting a character off the front takes all of them there and nothing else.
pub proof fn law_front_cut(s: Seq<char>, c: char)
    ensures
        front_cut(seq![c] + s, c) == front_cut(s, c),
        s.len() == 0 || s[0] != c ==> front_cut(s, c) == s,
{
    assert((seq![c] + s).drop_first() =~= s);
}

/// Cutting a character off the back takes all of them there and nothing else.
pub proof fn law_back_cut(s: Seq<char>, c: char)
    ensures
        back_cut(s + seq![c], c) == back_cut(s, c),
        s.len() == 0 || s.last() != c ==> back_cut(s, c) == s,
{
    assert((s + seq![c]).drop_last() =~= s);
}

proof fn lemma_shown_nat_digits(n: nat, c: char)
    requires
        c < '0' || '9' < c,
    ensures
        !shown_nat(n).contains(c),
        shown_nat(n).len() > 0,
    decreases n,
{
    let d = digit(n % 10);
    assert('0' <= d <= '9');
    if n >= 10 {
        lemma_shown_nat_digits(n / 10, c);
        let s = shown_nat(n / 10);
        assert(shown_nat(n) == s.push(d));
        if shown_nat(n).contains(c) {
            let i = choose|i: int| 0 <= i < shown_nat(n).len() && shown_nat(n)[i] == c;
            assert(i < s.len() ==> s[i] == c);
        }
    }
}

/// A number in decimal holds nothing but digits and the sign in front.
pub proof fn law_shown_plain(i: int, c: char)
    requires
        c < '0' || '9' < c,
        c != '-',
    ensures
        !shown(i).contains(c),
        shown(i).len() > 0,
{
    if i < 0 {
        let s = shown_nat((-i) as nat);
        lemma_shown_nat_digits((-i) as nat, c);
        if shown(i).contains(c) {
            let k = choose|k: int| 0 <= k < shown(i).len() && shown(i)[k] == c;
            assert(k > 0 ==> s[k - 1] == c);
        }
    } else {
        lemma_shown_nat_digits(i as nat, c);
    }
}

/// A text that ends with another, and does not hold it before, has its end
/// replaced and nothing else.
pub proof fn law_replaced_last(s: Seq<char>, n: int, p: Seq<char>, to: Seq<char>)
    requires
        p.len() > 0,
        0 <= n,
        s.len() == n + p.len(),
        s.skip(n) == p,
        forall|j: int| 0 <= j < n ==> !#[trigger] occurs_at(s, p, j),
    ensures
        replaced(s, p, to) == s.take(n) + to,
    decreases n,
{
    if n == 0 {
        assert(s.skip(0) =~= s);
        assert(s.subrange(0, p.len() as int) =~= p);
        let rest = s.skip(p.len() as int);
        assert(rest =~= Seq::<char>::empty());
        assert(replaced(rest, p, to) =~= rest);
        assert(replaced(s, p, to) == to + rest);
        assert(to + rest =~= s.take(0) + to);
    } else {
        let t = s.skip(1);
        assert(t.skip(n - 1) =~= p);
        assert(!p.is_prefix_of(s)) by {
            if p.is_prefix_of(s) {
                assert(s.subrange(0, p.len() as int) =~= p);
                assert(occurs_at(s, p, 0));
            }
        }
        assert forall|j: int| 0 <= j < n - 1 implies !#[trigger] occurs_at(t, p, j) by {
            if occurs_at(t, p, j) {
                assert(s.subrange(j + 1, j + 1 + p.len()) =~= t.subrange(j, j + p.len()));
                assert(occurs_at(s, p, j + 1));
            }
        }
        law_replaced_last(t, n - 1, p, to);
        assert(replaced(s, p, to) == seq![s[0]] + replaced(t, p, to));
        assert(seq![s[0]] + (t.take(n - 1) + to) =~= s.take(n) + to);
    }
}

/// A number in decimal has no white space around it.
pub proof fn law_shown_trimmed(n: int)
    requires
        0 <= n,
    ensures
        trimmed(shown(n)) == shown(n),
{
    law_decimal_round_trip(n, 0, n);
    let s = shown(n);
    assert forall|c: char| is_space(c) implies c < '0' || '9' < c by {}
    assert(!is_space(s[0])) by {
        if is_space(s[0]) {
            law_shown_plain(n, s[0]);
            assert(s.contains(s[0]));
        }
    }
    law_shown_plain(n, ' ');
    assert(!is_space(s.last())) by {
        if is_space(s.last()) {
            law_shown_plain(n, s.last());
            assert(s.contains(s[s.len() - 1]));
        }
    }
    law_trimmed_already(s);
}

} // verus!
