//! Character-level text utilities: whitespace trimming and splitting on a
//! separator character.  These are the primitives behind the row parser and
//! are specified over `Seq<char>` views.

use vstd::prelude::*;

verus! {

/// The whitespace characters that surround values in the remote database's
/// textual output: space, tab, carriage return and line feed.
pub open spec fn is_ws(c: char) -> bool {
    c == ' ' || c == '\t' || c == '\r' || c == '\n'
}

/// Executable test for [`is_ws`].
pub fn is_ws_char(c: char) -> (r: bool)
    ensures
        r == is_ws(c),
{
    c == ' ' || c == '\t' || c == '\r' || c == '\n'
}

/// The sequence with its leading whitespace removed.
pub open spec fn trim_start_spec(s: Seq<char>) -> Seq<char>
    decreases s.len(),
{
    if s.len() > 0 && is_ws(s[0]) {
        trim_start_spec(s.drop_first())
    } else {
        s
    }
}

/// The sequence with its trailing whitespace removed.
pub open spec fn trim_end_spec(s: Seq<char>) -> Seq<char>
    decreases s.len(),
{
    if s.len() > 0 && is_ws(s.last()) {
        trim_end_spec(s.drop_last())
    } else {
        s
    }
}

/// The sequence with leading and trailing whitespace removed.
pub open spec fn trim_spec(s: Seq<char>) -> Seq<char> {
    trim_end_spec(trim_start_spec(s))
}

/// If the first `a` characters of `s` are whitespace and the character at `a`
/// (if any) is not, trimming the start of `s` keeps exactly the tail from `a`.
proof fn lemma_trim_start_at(s: Seq<char>, a: int)
    requires
        0 <= a <= s.len(),
        forall|j: int| 0 <= j < a ==> is_ws(s[j]),
        a == s.len() || !is_ws(s[a]),
    ensures
        trim_start_spec(s) == s.subrange(a, s.len() as int),
    decreases a,
{
    if a == 0 {
        if s.len() > 0 && is_ws(s[0]) {
            assert(false);
        }
        assert(s.subrange(0, s.len() as int) =~= s);
    } else {
        lemma_trim_start_at(s.drop_first(), a - 1);
        assert(s.drop_first().subrange(a - 1, s.drop_first().len() as int) =~= s.subrange(
            a,
            s.len() as int,
        ));
    }
}

/// If the characters of `s` from `b` on are whitespace and the character just
/// before `b` (if any) is not, trimming the end of `s` keeps exactly the
/// prefix up to `b`.
proof fn lemma_trim_end_at(s: Seq<char>, b: int)
    requires
        0 <= b <= s.len(),
        forall|j: int| b <= j < s.len() ==> is_ws(s[j]),
        b == 0 || !is_ws(s[b - 1]),
    ensures
        trim_end_spec(s) == s.subrange(0, b),
    decreases s.len() - b,
{
    if b == s.len() {
        if s.len() > 0 && is_ws(s.last()) {
            assert(false);
        }
        assert(s.subrange(0, s.len() as int) =~= s);
    } else {
        lemma_trim_end_at(s.drop_last(), b);
        assert(s.drop_last().subrange(0, b) =~= s.subrange(0, b));
    }
}

/// A trimmed sequence never starts or ends with whitespace.
pub proof fn lemma_trim_no_outer_ws(s: Seq<char>)
    ensures
        trim_spec(s).len() > 0 ==> !is_ws(trim_spec(s)[0]),
        trim_spec(s).len() > 0 ==> !is_ws(trim_spec(s).last()),
{
    lemma_trim_start_no_leading_ws(s);
    let t = trim_start_spec(s);
    lemma_trim_end_no_trailing_ws(t);
    lemma_trim_end_prefix(t);
}

/// Trimming the start leaves no leading whitespace.
proof fn lemma_trim_start_no_leading_ws(s: Seq<char>)
    ensures
        trim_start_spec(s).len() > 0 ==> !is_ws(trim_start_spec(s)[0]),
    decreases s.len(),
{
    if s.len() > 0 && is_ws(s[0]) {
        lemma_trim_start_no_leading_ws(s.drop_first());
    }
}

/// Trimming the end leaves no trailing whitespace.
proof fn lemma_trim_end_no_trailing_ws(s: Seq<char>)
    ensures
        trim_end_spec(s).len() > 0 ==> !is_ws(trim_end_spec(s).last()),
    decreases s.len(),
{
    if s.len() > 0 && is_ws(s.last()) {
        lemma_trim_end_no_trailing_ws(s.drop_last());
    }
}

/// Trimming the end keeps a prefix, so it preserves the first character.
proof fn lemma_trim_end_prefix(s: Seq<char>)
    ensures
        trim_end_spec(s).len() <= s.len(),
        forall|j: int|
            0 <= j < trim_end_spec(s).len() ==> #[trigger] trim_end_spec(s)[j] == s[j],
    decreases s.len(),
{
    if s.len() > 0 && is_ws(s.last()) {
        lemma_trim_end_prefix(s.drop_last());
    }
}

/// A sequence of nothing but whitespace trims to the empty sequence.
pub proof fn lemma_trim_all_ws_empty(s: Seq<char>)
    requires
        forall|j: int| 0 <= j < s.len() ==> is_ws(s[j]),
    ensures
        trim_spec(s).len() == 0,
{
    lemma_trim_start_at(s, s.len() as int);
    assert(trim_start_spec(s) =~= Seq::<char>::empty());
}

/// The pieces of `s` between occurrences of the separator `sep`, in order.
/// As with the usual string split, the result always has at least one piece:
/// an empty sequence yields one empty piece, and each separator adds a piece.
pub open spec fn split_spec(s: Seq<char>, sep: char) -> Seq<Seq<char>>
    decreases s.len(),
{
    if s.len() == 0 {
        seq![Seq::<char>::empty()]
    } else if s[0] == sep {
        seq![Seq::<char>::empty()] + split_spec(s.drop_first(), sep)
    } else {
        let rest = split_spec(s.drop_first(), sep);
        seq![seq![s[0]] + rest[0]] + rest.drop_first()
    }
}

/// A sequence without the separator splits into exactly itself.
proof fn lemma_split_no_sep(s: Seq<char>, sep: char)
    requires
        forall|j: int| 0 <= j < s.len() ==> s[j] != sep,
    ensures
        split_spec(s, sep) == seq![s],
    decreases s.len(),
{
    if s.len() == 0 {
        assert(Seq::<char>::empty() =~= s);
        assert(split_spec(s, sep) =~= seq![s]);
    } else {
        lemma_split_no_sep(s.drop_first(), sep);
        let rest = split_spec(s.drop_first(), sep);
        assert(rest[0] == s.drop_first());
        assert(seq![s[0]] + s.drop_first() =~= s);
        assert(rest.drop_first() =~= Seq::<Seq<char>>::empty());
        assert(split_spec(s, sep) =~= seq![s]);
    }
}

/// If the first occurrence of the separator is at index `i`, the split is the
/// prefix before `i` followed by the split of the suffix after `i`.
proof fn lemma_split_at_first_sep(s: Seq<char>, sep: char, i: int)
    requires
        0 <= i < s.len(),
        s[i] == sep,
        forall|j: int| 0 <= j < i ==> s[j] != sep,
    ensures
        split_spec(s, sep) == seq![s.subrange(0, i)] + split_spec(
            s.subrange(i + 1, s.len() as int),
            sep,
        ),
    decreases i,
{
    if i == 0 {
        assert(s.subrange(0, 0) =~= Seq::<char>::empty());
        assert(s.drop_first() =~= s.subrange(1, s.len() as int));
        assert(split_spec(s, sep) =~= seq![s.subrange(0, 0)] + split_spec(
            s.subrange(1, s.len() as int),
            sep,
        ));
    } else {
        let d = s.drop_first();
        lemma_split_at_first_sep(d, sep, i - 1);
        let tail = split_spec(d.subrange(i, d.len() as int), sep);
        assert(d.subrange(i, d.len() as int) =~= s.subrange(i + 1, s.len() as int));
        let rest = split_spec(d, sep);
        assert(rest == seq![d.subrange(0, i - 1)] + tail);
        assert(rest[0] == d.subrange(0, i - 1));
        assert(seq![s[0]] + d.subrange(0, i - 1) =~= s.subrange(0, i));
        assert(rest.drop_first() =~= tail);
        assert(split_spec(s, sep) =~= seq![s.subrange(0, i)] + tail);
    }
}

/// The views of a vector of strings, in order.
pub open spec fn views_of(v: Seq<String>) -> Seq<Seq<char>> {
    v.map_values(|t: String| t@)
}

/// Splits a string on a separator character.
pub fn split(s: &str, sep: char) -> (out: Vec<String>)
    ensures
        views_of(out@) == split_spec(s@, sep),
{
    let n: usize = s.unicode_len();
    let mut out: Vec<String> = Vec::new();
    let mut start: usize = 0;
    proof {
        assert(s@.subrange(0, n as int) =~= s@);
        assert(views_of(out@) + split_spec(s@, sep) =~~= split_spec(s@, sep));
    }
    loop
        invariant
            n == s@.len(),
            0 <= start <= n,
            split_spec(s@, sep) == views_of(out@) + split_spec(
                s@.subrange(start as int, n as int),
                sep,
            ),
        decreases n - start,
    {
        let ghost rem = s@.subrange(start as int, n as int);
        let mut i: usize = start;
        while i < n && s.get_char(i) != sep
            invariant
                n == s@.len(),
                start <= i <= n,
                forall|j: int| start <= j < i ==> s@[j] != sep,
            decreases n - i,
        {
            i = i + 1;
        }
        let ghost prev = views_of(out@);
        let piece = s.substring_char(start, i).to_owned();
        out.push(piece);
        proof {
            assert(views_of(out@) =~~= prev + seq![s@.subrange(start as int, i as int)]);
        }
        if i == n {
            proof {
                assert(forall|j: int| 0 <= j < rem.len() ==> rem[j] != sep) by {
                    assert(forall|j: int|
                        0 <= j < rem.len() ==> rem[j] == s@[j + start as int]);
                }
                lemma_split_no_sep(rem, sep);
                assert(split_spec(s@, sep) =~~= views_of(out@));
            }
            return out;
        }
        proof {
            let k = i - start;
            assert(rem[k] == s@[i as int]);
            assert(forall|j: int| 0 <= j < k ==> rem[j] == s@[j + start as int]);
            lemma_split_at_first_sep(rem, sep, k);
            assert(rem.subrange(0, k) =~= s@.subrange(start as int, i as int));
            assert(rem.subrange(k + 1, rem.len() as int) =~= s@.subrange(
                i + 1,
                n as int,
            ));
            let tail = split_spec(s@.subrange(i + 1, n as int), sep);
            assert(prev + (seq![s@.subrange(start as int, i as int)] + tail) =~~= (prev
                + seq![s@.subrange(start as int, i as int)]) + tail);
        }
        start = i + 1;
    }
}

/// Removes leading and trailing whitespace from a string.
pub fn trim(s: &str) -> (r: String)
    ensures
        r@ == trim_spec(s@),
{
    let n: usize = s.unicode_len();
    let mut a: usize = 0;
    while a < n && is_ws_char(s.get_char(a))
        invariant
            n == s@.len(),
            0 <= a <= n,
            forall|j: int| 0 <= j < a ==> is_ws(s@[j]),
        decreases n - a,
    {
        a = a + 1;
    }
    let mut b: usize = n;
    while b > a && is_ws_char(s.get_char(b - 1))
        invariant
            n == s@.len(),
            0 <= a <= b <= n,
            forall|j: int| b <= j < n ==> is_ws(s@[j]),
        decreases b,
    {
        b = b - 1;
    }
    proof {
        lemma_trim_start_at(s@, a as int);
        let t = s@.subrange(a as int, n as int);
        lemma_trim_end_at(t, b - a);
        assert(t.subrange(0, b - a) =~= s@.subrange(a as int, b as int));
    }
    let piece = s.substring_char(a, b);
    piece.to_owned()
}

} // verus!
