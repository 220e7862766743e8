//! Character-level text operations: whitespace, trimming, splitting, joining.

use vstd::prelude::*;
use vstd::string::*;

verus! {

/// Whether `c` has the Unicode `White_Space` property.
pub open spec fn is_whitespace(c: char) -> bool {
    let n = c as u32;
    ||| 0x09 <= n <= 0x0D
    ||| n == 0x20
    ||| n == 0x85
    ||| n == 0xA0
    ||| n == 0x1680
    ||| 0x2000 <= n <= 0x200A
    ||| n == 0x2028
    ||| n == 0x2029
    ||| n == 0x202F
    ||| n == 0x205F
    ||| n == 0x3000
}

/// Tests whether `c` is a whitespace character.
pub fn char_is_whitespace(c: char) -> (b: bool)
    ensures
        b == is_whitespace(c),
{
    let n: u32 = c as u32;
    (0x09 <= n && n <= 0x0D) || n == 0x20 || n == 0x85 || n == 0xA0 || n == 0x1680 || (0x2000 <= n
        && n <= 0x200A) || n == 0x2028 || n == 0x2029 || n == 0x202F || n == 0x205F || n == 0x3000
}

/// The characters of `s`, in order.
pub fn chars_of(s: &str) -> (v: Vec<char>)
    ensures
        v@ == s@,
{
    let mut v: Vec<char> = Vec::new();
    for c in it: s.chars()
        invariant
            v@ == it.seq().take(it.index() as int),
            it.seq() == s@,
    {
        v.push(c);
    }
    v
}

/// `s` without its leading whitespace.
pub open spec fn trim_start(s: Seq<char>) -> Seq<char>
    decreases s.len(),
{
    if s.len() > 0 && is_whitespace(s[0]) {
        trim_start(s.drop_first())
    } else {
        s
    }
}

/// `s` without its trailing whitespace.
pub open spec fn trim_end(s: Seq<char>) -> Seq<char>
    decreases s.len(),
{
    if s.len() > 0 && is_whitespace(s.last()) {
        trim_end(s.drop_last())
    } else {
        s
    }
}

/// `s` without leading and trailing whitespace.
pub open spec fn trim(s: Seq<char>) -> Seq<char> {
    trim_end(trim_start(s))
}

/// Whether `s` neither starts nor ends with whitespace.
pub open spec fn is_trimmed(s: Seq<char>) -> bool {
    s.len() > 0 ==> !is_whitespace(s[0]) && !is_whitespace(s.last())
}

/// Trimming cuts out the range between the first and the last character that
/// is not whitespace: everything before `a` and from `b` on is whitespace, and
/// a non-empty result starts and ends with a character that is not.
pub proof fn lemma_trim_is_range(s: Seq<char>, a: int, b: int)
    requires
        0 <= a <= b <= s.len(),
        forall|i: int| 0 <= i < a ==> is_whitespace(s[i]),
        forall|i: int| b <= i < s.len() ==> is_whitespace(s[i]),
        a < b ==> !is_whitespace(s[a]) && !is_whitespace(s[b - 1]),
    ensures
        trim(s) == s.subrange(a, b),
    decreases s.len(),
{
    if a > 0 {
        let t = s.drop_first();
        assert forall|i: int| 0 <= i < a - 1 implies is_whitespace(t[i]) by {
            assert(t[i] == s[i + 1]);
        }
        assert forall|i: int| b - 1 <= i < t.len() implies is_whitespace(t[i]) by {
            assert(t[i] == s[i + 1]);
        }
        lemma_trim_is_range(t, a - 1, b - 1);
        assert(t.subrange(a - 1, b - 1) =~= s.subrange(a, b));
    } else if a == b {
        lemma_trim_start_all_whitespace(s);
        assert(s.subrange(0, 0) =~= Seq::<char>::empty());
    } else {
        assert(trim_start(s) == s);
        lemma_trim_end_is_prefix(s, b);
    }
}

proof fn lemma_trim_start_all_whitespace(s: Seq<char>)
    requires
        forall|i: int| 0 <= i < s.len() ==> is_whitespace(s[i]),
    ensures
        trim_start(s) == Seq::<char>::empty(),
    decreases s.len(),
{
    if s.len() > 0 {
        let t = s.drop_first();
        assert forall|i: int| 0 <= i < t.len() implies is_whitespace(t[i]) by {
            assert(t[i] == s[i + 1]);
        }
        lemma_trim_start_all_whitespace(t);
    } else {
        assert(s =~= Seq::<char>::empty());
    }
}

proof fn lemma_trim_end_is_prefix(s: Seq<char>, b: int)
    requires
        0 < b <= s.len(),
        !is_whitespace(s[b - 1]),
        forall|i: int| b <= i < s.len() ==> is_whitespace(s[i]),
    ensures
        trim_end(s) == s.subrange(0, b),
    decreases s.len(),
{
    if b == s.len() {
        assert(s.subrange(0, b) =~= s);
    } else {
        lemma_trim_end_is_prefix(s.drop_last(), b);
        assert(s.drop_last().subrange(0, b) =~= s.subrange(0, b));
    }
}

/// The bounds of `trim(chars@)` within `chars`.
pub fn trim_bounds(chars: &Vec<char>) -> (r: (usize, usize))
    ensures
        r.0 <= r.1 <= chars.len(),
        chars@.subrange(r.0 as int, r.1 as int) == trim(chars@),
{
    let n = chars.len();
    let mut a: usize = 0;
    while a < n && char_is_whitespace(chars[a])
        invariant
            a <= n,
            n == chars.len(),
            forall|i: int| 0 <= i < a ==> is_whitespace(chars@[i]),
        decreases n - a,
    {
        a += 1;
    }
    let mut b: usize = n;
    while b > a && char_is_whitespace(chars[b - 1])
        invariant
            a <= b <= n,
            n == chars.len(),
            forall|i: int| b <= i < n ==> is_whitespace(chars@[i]),
        decreases b,
    {
        b -= 1;
    }
    proof {
        lemma_trim_is_range(chars@, a as int, b as int);
    }
    (a, b)
}

/// `s` without leading and trailing whitespace.
pub fn trim_str(s: &str) -> (r: &str)
    ensures
        r@ == trim(s@),
{
    let chars = chars_of(s);
    let (a, b) = trim_bounds(&chars);
    s.substring_char(a, b)
}

/// Number of characters of `s` before its first `sep`, or all of them when
/// `s` holds no `sep`.
pub open spec fn first_piece_len(s: Seq<char>, sep: char) -> int
    decreases s.len(),
{
    if s.len() == 0 || s[0] == sep {
        0
    } else {
        1 + first_piece_len(s.drop_first(), sep)
    }
}

/// The pieces of `s` between occurrences of `sep`. There is always at least
/// one piece; `n` separators give `n + 1` pieces, some of them possibly empty.
pub open spec fn split(s: Seq<char>, sep: char) -> Seq<Seq<char>>
    decreases s.len(),
{
    let n = first_piece_len(s, sep);
    if 0 <= n < s.len() {
        seq![s.take(n)] + split(s.skip(n + 1), sep)
    } else {
        seq![s]
    }
}

/// The pieces put back together with `sep` between neighbours.
pub open spec fn join(pieces: Seq<Seq<char>>, sep: char) -> Seq<char>
    decreases pieces.len(),
{
    if pieces.len() == 0 {
        Seq::empty()
    } else if pieces.len() == 1 {
        pieces[0]
    } else {
        pieces[0] + seq![sep] + join(pieces.drop_first(), sep)
    }
}

/// Whether `sep` occurs nowhere in `s`.
pub open spec fn lacks(s: Seq<char>, sep: char) -> bool {
    forall|i: int| 0 <= i < s.len() ==> s[i] != sep
}

/// `first_piece_len` is the index of the first separator, or the length.
pub proof fn lemma_first_piece_len(s: Seq<char>, sep: char, k: int)
    requires
        0 <= k <= s.len(),
        forall|i: int| 0 <= i < k ==> s[i] != sep,
        k < s.len() ==> s[k] == sep,
    ensures
        first_piece_len(s, sep) == k,
    decreases s.len(),
{
    if k > 0 {
        let t = s.drop_first();
        assert forall|i: int| 0 <= i < k - 1 implies t[i] != sep by {
            assert(t[i] == s[i + 1]);
        }
        if k < s.len() {
            assert(t[k - 1] == s[k]);
        }
        lemma_first_piece_len(t, sep, k - 1);
    }
}

/// The pieces of `s` split at every `sep`.
pub fn split_str(s: &str, sep: char) -> (pieces: Vec<String>)
    ensures
        pieces.deep_view() == split(s@, sep),
{
    let chars = chars_of(s);
    let n = chars.len();
    let mut pieces: Vec<String> = Vec::new();
    let mut start: usize = 0;
    let mut i: usize = 0;
    proof {
        assert(s@.skip(0) =~= s@);
        assert(pieces.deep_view() =~= Seq::<Seq<char>>::empty());
        assert(Seq::<Seq<char>>::empty() + split(s@, sep) =~= split(s@, sep));
    }
    while i < n
        invariant
            start <= i <= n,
            n == chars.len(),
            chars@ == s@,
            forall|j: int| start <= j < i ==> chars@[j] != sep,
            split(s@, sep) == pieces.deep_view() + split(s@.skip(start as int), sep),
        decreases n - i,
    {
        if chars[i] == sep {
            let piece = s.substring_char(start, i).to_owned();
            proof {
                let rest = s@.skip(start as int);
                assert forall|j: int| 0 <= j < i - start implies rest[j] != sep by {
                    assert(rest[j] == chars@[start + j]);
                }
                lemma_first_piece_len(rest, sep, i - start);
                assert(rest.take(i - start) =~= s@.subrange(start as int, i as int));
                assert(rest.skip(i - start + 1) =~= s@.skip(i + 1));
                assert(pieces.deep_view().push(piece@) + split(s@.skip(i + 1), sep)
                    =~= pieces.deep_view() + split(rest, sep));
            }
            let ghost before = pieces.deep_view();
            pieces.push(piece);
            assert(pieces.deep_view() =~= before.push(piece@));
            start = i + 1;
        }
        i += 1;
    }
    let piece = s.substring_char(start, n).to_owned();
    proof {
        let rest = s@.skip(start as int);
        assert forall|j: int| 0 <= j < n - start implies rest[j] != sep by {
            assert(rest[j] == chars@[start + j]);
        }
        lemma_first_piece_len(rest, sep, n - start);
        assert(rest =~= s@.subrange(start as int, n as int));
    }
    let ghost before = pieces.deep_view();
    pieces.push(piece);
    assert(pieces.deep_view() =~= before.push(piece@));
    pieces
}

/// A text without the separator is a single piece.
pub proof fn lemma_split_lacking(s: Seq<char>, sep: char)
    requires
        lacks(s, sep),
    ensures
        split(s, sep) == seq![s],
{
    lemma_first_piece_len(s, sep, s.len() as int);
}

/// Splitting gives at least one piece, and no piece holds the separator.
pub proof fn lemma_split_pieces(s: Seq<char>, sep: char)
    ensures
        split(s, sep).len() >= 1,
        forall|k: int| 0 <= k < split(s, sep).len() ==> lacks(#[trigger] split(s, sep)[k], sep),
    decreases s.len(),
{
    let n = first_piece_len(s, sep);
    lemma_first_piece_bounds(s, sep);
    if n < s.len() {
        let rest = s.skip(n + 1);
        lemma_split_pieces(rest, sep);
        assert forall|k: int| 0 <= k < split(s, sep).len() implies lacks(
            #[trigger] split(s, sep)[k],
            sep,
        ) by {
            if k > 0 {
                assert(split(s, sep)[k] == split(rest, sep)[k - 1]);
            } else {
                assert(split(s, sep)[0] == s.take(n));
            }
        }
    } else {
        assert(s.take(n) =~= s);
        assert(split(s, sep)[0] == s);
    }
}

/// Before the first separator there is none, and at it there is one.
pub proof fn lemma_first_piece_bounds(s: Seq<char>, sep: char)
    ensures
        0 <= first_piece_len(s, sep) <= s.len(),
        lacks(s.take(first_piece_len(s, sep)), sep),
        first_piece_len(s, sep) < s.len() ==> s[first_piece_len(s, sep)] == sep,
    decreases s.len(),
{
    if s.len() == 0 || s[0] == sep {
    } else {
        let t = s.drop_first();
        lemma_first_piece_bounds(t, sep);
        let n = first_piece_len(s, sep);
        assert forall|i: int| 0 <= i < n implies s.take(n)[i] != sep by {
            if i > 0 {
                assert(t.take(n - 1)[i - 1] == s[i]);
            }
        }
        if n < s.len() {
            assert(t[n - 1] == s[n]);
        }
    }
}

/// Joining the pieces of a text gives the text back.
pub proof fn lemma_join_split(s: Seq<char>, sep: char)
    ensures
        join(split(s, sep), sep) == s,
    decreases s.len(),
{
    let n = first_piece_len(s, sep);
    lemma_first_piece_bounds(s, sep);
    if n < s.len() {
        let rest = s.skip(n + 1);
        lemma_join_split(rest, sep);
        lemma_split_pieces(rest, sep);
        let pieces = split(s, sep);
        assert(pieces.drop_first() =~= split(rest, sep));
        assert(s.take(n) + seq![sep] + rest =~= s);
    }
}

/// Splitting the join of separator-free pieces gives the pieces back.
pub proof fn lemma_split_join(pieces: Seq<Seq<char>>, sep: char)
    requires
        pieces.len() >= 1,
        forall|k: int| 0 <= k < pieces.len() ==> lacks(#[trigger] pieces[k], sep),
    ensures
        split(join(pieces, sep), sep) == pieces,
    decreases pieces.len(),
{
    if pieces.len() == 1 {
        lemma_split_lacking(pieces[0], sep);
        assert(seq![pieces[0]] =~= pieces);
    } else {
        let head = pieces[0];
        let tail = pieces.drop_first();
        assert forall|k: int| 0 <= k < tail.len() implies lacks(#[trigger] tail[k], sep) by {
            assert(tail[k] == pieces[k + 1]);
        }
        lemma_split_join(tail, sep);
        let s = join(pieces, sep);
        assert(lacks(head, sep));
        assert forall|i: int| 0 <= i < head.len() implies s[i] != sep by {
            assert(s[i] == head[i]);
        }
        assert(s[head.len() as int] == sep);
        lemma_first_piece_len(s, sep, head.len() as int);
        assert(s.take(head.len() as int) =~= head);
        assert(s.skip(head.len() as int + 1) =~= join(tail, sep));
        assert(seq![head] + tail =~= pieces);
    }
}

/// What trimming leaves neither starts nor ends with whitespace, is no longer
/// than the text, and holds only characters of it.
pub proof fn lemma_trim_is_trimmed(s: Seq<char>)
    ensures
        is_trimmed(trim(s)),
        trim(s).len() <= s.len(),
        forall|c: char| trim(s).contains(c) ==> s.contains(c),
{
    let (a, b) = lemma_trim_bounds_exist(s);
    lemma_trim_is_range(s, a, b);
    assert forall|c: char| trim(s).contains(c) implies s.contains(c) by {
        let i = choose|i: int| 0 <= i < trim(s).len() && trim(s)[i] == c;
        assert(s[a + i] == c);
    }
}

/// Trimming a text that ends with a character that is not whitespace leaves
/// something, and trimming one that starts with whitespace makes it shorter.
pub proof fn lemma_trim_at_the_ends(s: Seq<char>)
    ensures
        s.len() > 0 && !is_whitespace(s.last()) ==> trim(s).len() > 0,
        s.len() > 0 && is_whitespace(s[0]) ==> trim(s).len() < s.len(),
{
    let (a, b) = lemma_trim_bounds_exist(s);
    lemma_trim_is_range(s, a, b);
    if s.len() > 0 && !is_whitespace(s.last()) {
        assert(b == s.len());
        assert(a < b);
    }
    if s.len() > 0 && is_whitespace(s[0]) {
        assert(a > 0 || b == 0);
    }
}

/// Trimming changes nothing in a text that neither starts nor ends with
/// whitespace.
pub proof fn lemma_trim_of_trimmed(s: Seq<char>)
    requires
        is_trimmed(s),
    ensures
        trim(s) == s,
{
    lemma_trim_is_range(s, 0, s.len() as int);
    assert(s.subrange(0, s.len() as int) =~= s);
}

proof fn lemma_trim_bounds_exist(s: Seq<char>) -> (r: (int, int))
    ensures
        0 <= r.0 <= r.1 <= s.len(),
        forall|i: int| 0 <= i < r.0 ==> is_whitespace(s[i]),
        forall|i: int| r.1 <= i < s.len() ==> is_whitespace(s[i]),
        r.0 < r.1 ==> !is_whitespace(s[r.0]) && !is_whitespace(s[r.1 - 1]),
{
    let a = leading_whitespace(s, 0);
    lemma_leading_whitespace(s, 0);
    let b = trailing_bound(s, a, s.len() as int);
    lemma_trailing_bound(s, a, s.len() as int);
    (a, b)
}

spec fn leading_whitespace(s: Seq<char>, from: int) -> int
    decreases s.len() - from,
{
    if 0 <= from < s.len() && is_whitespace(s[from]) {
        leading_whitespace(s, from + 1)
    } else {
        from
    }
}

proof fn lemma_leading_whitespace(s: Seq<char>, from: int)
    requires
        0 <= from <= s.len(),
    ensures
        from <= leading_whitespace(s, from) <= s.len(),
        forall|i: int| from <= i < leading_whitespace(s, from) ==> is_whitespace(s[i]),
        leading_whitespace(s, from) < s.len() ==> !is_whitespace(s[leading_whitespace(s, from)]),
    decreases s.len() - from,
{
    if from < s.len() && is_whitespace(s[from]) {
        lemma_leading_whitespace(s, from + 1);
    }
}

spec fn trailing_bound(s: Seq<char>, low: int, to: int) -> int
    decreases to - low,
{
    if low < to <= s.len() && is_whitespace(s[to - 1]) {
        trailing_bound(s, low, to - 1)
    } else {
        to
    }
}

proof fn lemma_trailing_bound(s: Seq<char>, low: int, to: int)
    requires
        0 <= low <= to <= s.len(),
    ensures
        low <= trailing_bound(s, low, to) <= to,
        forall|i: int| trailing_bound(s, low, to) <= i < to ==> is_whitespace(s[i]),
        low < trailing_bound(s, low, to) ==> !is_whitespace(s[trailing_bound(s, low, to) - 1]),
    decreases to - low,
{
    if low < to && is_whitespace(s[to - 1]) {
        lemma_trailing_bound(s, low, to - 1);
    }
}

/// Whether `s` ends with `suffix`.
pub fn ends_with(s: &str, suffix: &str) -> (b: bool)
    ensures
        b == suffix@.is_suffix_of(s@),
{
    let chars = chars_of(s);
    let tail = chars_of(suffix);
    let n = chars.len();
    let m = tail.len();
    if m > n {
        return false;
    }
    let offset = n - m;
    let mut i: usize = 0;
    while i < m
        invariant
            i <= m <= n,
            offset == n - m,
            n == chars.len(),
            m == tail.len(),
            chars@ == s@,
            tail@ == suffix@,
            forall|j: int| 0 <= j < i ==> tail@[j] == chars@[offset + j],
        decreases m - i,
    {
        if tail[i] != chars[offset + i] {
            assert(chars@.subrange(n - m, n as int)[i as int] == chars@[offset + i]);
            return false;
        }
        i += 1;
    }
    assert(tail@ =~= chars@.subrange(n - m, n as int));
    true
}

} // verus!
