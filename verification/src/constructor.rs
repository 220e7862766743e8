//! Constructor arguments: from the raw command-line value to the ordered
//! tokens that are handed to the deployment tool.

use crate::text::{
    chars_of, ends_with, is_trimmed, is_whitespace, join, lacks, lemma_split_join,
    lemma_split_lacking, lemma_split_pieces, lemma_trim_at_the_ends, lemma_trim_is_range,
    lemma_trim_is_trimmed, lemma_trim_of_trimmed, split, split_str, trim, trim_str,
};
use vstd::prelude::*;
use vstd::string::*;

verus! {

/// The ending that marks a constructor input as the path of a file holding
/// the arguments, rather than the arguments themselves.
pub open spec fn file_suffix() -> Seq<char> {
    ".constructor"@
}

/// Whether the raw input names a file to read the arguments from.
pub open spec fn is_file_reference(raw: Seq<char>) -> bool {
    file_suffix().is_suffix_of(raw)
}

/// Whether a piece of the argument text counts as a token: blank pieces do
/// not.
pub open spec fn is_token(piece: Seq<char>) -> bool {
    piece.len() > 0
}

/// The comma-separated pieces of `text`, each trimmed. Blank pieces are still
/// present, as empty sequences.
pub open spec fn trimmed_pieces(text: Seq<char>) -> Seq<Seq<char>> {
    split(text, ',').map_values(|piece: Seq<char>| trim(piece))
}

/// The pieces that are tokens, in order.
pub open spec fn tokens_among(pieces: Seq<Seq<char>>) -> Seq<Seq<char>> {
    pieces.filter(|piece: Seq<char>| is_token(piece))
}

/// Every element split and trimmed once more, blank results dropped, the
/// results of all elements in order.
pub open spec fn flattened(pieces: Seq<Seq<char>>) -> Seq<Seq<char>>
    decreases pieces.len(),
{
    if pieces.len() == 0 {
        Seq::empty()
    } else {
        flattened(pieces.drop_last()) + tokens_among(trimmed_pieces(pieces.last()))
    }
}

/// `token` without the backslashes that stand directly before a character
/// other than a double quote. A backslash before a double quote stays, and so
/// does one at the very end.
pub open spec fn without_stray_backslashes(token: Seq<char>) -> Seq<char>
    decreases token.len(),
{
    if token.len() == 0 {
        token
    } else if token.len() >= 2 && token[0] == '\\' && token[1] != '"' {
        without_stray_backslashes(token.drop_first())
    } else {
        seq![token[0]] + without_stray_backslashes(token.drop_first())
    }
}

/// The constructor tokens that an argument text stands for: its
/// comma-separated pieces, trimmed, without the blank ones, each cleaned of
/// stray backslashes, in the order of the text.
pub open spec fn normalized(text: Seq<char>) -> Seq<Seq<char>> {
    tokens_among(trimmed_pieces(text)).map_values(
        |token: Seq<char>| without_stray_backslashes(token),
    )
}

/// The constructor tokens for an optional argument text: none when it is
/// absent.
pub open spec fn normalized_input(text: Option<Seq<char>>) -> Seq<Seq<char>> {
    match text {
        Some(t) => normalized(t),
        None => Seq::empty(),
    }
}

/// Whether the raw constructor input names a file to read the arguments from.
pub fn names_constructor_file(raw: &str) -> (b: bool)
    ensures
        b == is_file_reference(raw@),
{
    ends_with(raw, ".constructor")
}

/// Removes the stray backslashes of a token.
pub fn strip_stray_backslashes(token: &str) -> (cleaned: String)
    ensures
        cleaned@ == without_stray_backslashes(token@),
{
    let chars = chars_of(token);
    let n = chars.len();
    let mut cleaned = String::new();
    let mut i: usize = 0;
    proof {
        assert(token@.skip(0) =~= token@);
        assert(cleaned@ + without_stray_backslashes(token@) =~= without_stray_backslashes(token@));
    }
    while i < n
        invariant
            i <= n,
            n == chars.len(),
            chars@ == token@,
            without_stray_backslashes(token@) == cleaned@ + without_stray_backslashes(
                token@.skip(i as int),
            ),
        decreases n - i,
    {
        let ghost rest = token@.skip(i as int);
        proof {
            assert(rest.drop_first() =~= token@.skip(i + 1));
            assert(rest[0] == chars@[i as int]);
            if i + 1 < n {
                assert(rest[1] == chars@[i + 1]);
            }
        }
        let stray = chars[i] == '\\' && i + 1 < n && chars[i + 1] != '"';
        if !stray {
            let ghost before = cleaned@;
            cleaned.append(token.substring_char(i, i + 1));
            proof {
                assert(token@.subrange(i as int, i + 1) =~= seq![rest[0]]);
                assert(cleaned@ + without_stray_backslashes(token@.skip(i + 1)) =~= before
                    + without_stray_backslashes(rest));
            }
        }
        i += 1;
    }
    proof {
        assert(token@.skip(n as int) =~= Seq::<char>::empty());
        assert(cleaned@ + Seq::<char>::empty() =~= cleaned@);
    }
    cleaned
}

/// Splits the argument text at commas and trims every piece.
pub fn split_and_trim(text: &str) -> (pieces: Vec<String>)
    ensures
        pieces.deep_view() == trimmed_pieces(text@),
{
    let raw = split_str(text, ',');
    let mut pieces: Vec<String> = Vec::new();
    let n = raw.len();
    let mut i: usize = 0;
    while i < n
        invariant
            i <= n,
            n == raw.len(),
            raw.deep_view() == split(text@, ','),
            pieces.len() == i,
            forall|k: int| 0 <= k < i ==> (#[trigger] pieces@[k])@ == trim(split(text@, ',')[k]),
        decreases n - i,
    {
        let piece = trim_str(raw[i].as_str()).to_owned();
        proof {
            assert(raw.deep_view()[i as int] == raw@[i as int]@);
        }
        pieces.push(piece);
        i += 1;
    }
    proof {
        assert(raw.deep_view().len() == n);
        assert(pieces.deep_view() =~= trimmed_pieces(text@));
    }
    pieces
}

/// Splits and trims every element once more and drops what is blank, so that
/// an element that itself held commas is taken apart.
pub fn flatten_tokens(pieces: &Vec<String>) -> (tokens: Vec<String>)
    ensures
        tokens.deep_view() == flattened(pieces.deep_view()),
{
    let mut tokens: Vec<String> = Vec::new();
    let n = pieces.len();
    let mut i: usize = 0;
    proof {
        assert(pieces.deep_view().take(0) =~= Seq::<Seq<char>>::empty());
        assert(tokens.deep_view() =~= Seq::<Seq<char>>::empty());
    }
    while i < n
        invariant
            i <= n,
            n == pieces.len(),
            tokens.deep_view() == flattened(pieces.deep_view().take(i as int)),
        decreases n - i,
    {
        let inner = split_and_trim(pieces[i].as_str());
        let m = inner.len();
        let ghost done = tokens.deep_view();
        let mut j: usize = 0;
        proof {
            assert(inner.deep_view().take(0) =~= Seq::<Seq<char>>::empty());
            reveal(Seq::filter);
            assert(tokens_among(Seq::<Seq<char>>::empty()) =~= Seq::<Seq<char>>::empty());
            assert(done + Seq::<Seq<char>>::empty() =~= done);
        }
        while j < m
            invariant
                j <= m,
                m == inner.len(),
                tokens.deep_view() == done + tokens_among(inner.deep_view().take(j as int)),
            decreases m - j,
        {
            let ghost before = tokens.deep_view();
            let ghost seen = inner.deep_view().take(j as int);
            let ghost next = inner.deep_view().take(j + 1);
            proof {
                assert(inner.deep_view()[j as int] == inner@[j as int]@);
                assert(next.drop_last() =~= seen);
                assert(next.last() == inner@[j as int]@);
                reveal(Seq::filter);
            }
            if !inner[j].as_str().is_empty() {
                let token = inner[j].clone();
                tokens.push(token);
                proof {
                    assert(tokens.deep_view() =~= before.push(inner@[j as int]@));
                    assert(tokens_among(next) == tokens_among(seen).push(inner@[j as int]@));
                    assert(done + tokens_among(next) =~= before.push(inner@[j as int]@));
                }
            } else {
                proof {
                    assert(tokens_among(next) == tokens_among(seen));
                }
            }
            j += 1;
        }
        proof {
            let upto = pieces.deep_view().take(i + 1);
            assert(inner.deep_view().take(m as int) =~= inner.deep_view());
            assert(upto.drop_last() =~= pieces.deep_view().take(i as int));
            assert(upto.last() == pieces@[i as int]@);
        }
        i += 1;
    }
    proof {
        assert(pieces.deep_view().take(n as int) =~= pieces.deep_view());
    }
    tokens
}

/// Filtering keeps a sequence whose elements are all tokens as it is.
proof fn lemma_tokens_among_tokens(pieces: Seq<Seq<char>>)
    requires
        forall|k: int| 0 <= k < pieces.len() ==> is_token(#[trigger] pieces[k]),
    ensures
        tokens_among(pieces) == pieces,
    decreases pieces.len(),
{
    reveal(Seq::filter);
    if pieces.len() > 0 {
        let init = pieces.drop_last();
        assert forall|k: int| 0 <= k < init.len() implies is_token(#[trigger] init[k]) by {
            assert(init[k] == pieces[k]);
        }
        lemma_tokens_among_tokens(init);
        assert(is_token(pieces[pieces.len() - 1]));
        assert(init.push(pieces.last()) =~= pieces);
    }
}

/// The pieces of a text hold no comma and no surrounding whitespace.
pub proof fn lemma_trimmed_pieces(text: Seq<char>)
    ensures
        trimmed_pieces(text).len() == split(text, ',').len(),
        trimmed_pieces(text).len() >= 1,
        forall|k: int|
            0 <= k < trimmed_pieces(text).len() ==> {
                &&& lacks(#[trigger] trimmed_pieces(text)[k], ',')
                &&& is_trimmed(trimmed_pieces(text)[k])
            },
{
    lemma_split_pieces(text, ',');
    assert forall|k: int| 0 <= k < trimmed_pieces(text).len() implies {
        &&& lacks(#[trigger] trimmed_pieces(text)[k], ',')
        &&& is_trimmed(trimmed_pieces(text)[k])
    } by {
        let piece = split(text, ',')[k];
        assert(trimmed_pieces(text)[k] == trim(piece));
        lemma_trim_is_trimmed(piece);
        assert(lacks(piece, ','));
        assert forall|i: int| 0 <= i < trim(piece).len() implies trim(piece)[i] != ',' by {
            let c = trim(piece)[i];
            assert(trim(piece).contains(c));
            assert(piece.contains(c));
        }
    }
}

/// Splitting and trimming once more leaves a piece without commas and
/// surrounding whitespace as it is, or drops it when it is blank.
pub proof fn lemma_resplit_piece(piece: Seq<char>)
    requires
        lacks(piece, ','),
        is_trimmed(piece),
    ensures
        tokens_among(trimmed_pieces(piece)) == if is_token(piece) {
            seq![piece]
        } else {
            Seq::<Seq<char>>::empty()
        },
{
    lemma_split_lacking(piece, ',');
    lemma_trim_of_trimmed(piece);
    assert(trimmed_pieces(piece) =~= seq![piece]);
    reveal_with_fuel(Seq::filter, 2);
    assert(seq![piece].drop_last() =~= Seq::<Seq<char>>::empty());
    if is_token(piece) {
        assert(Seq::<Seq<char>>::empty().push(piece) =~= seq![piece]);
    }
}

/// The second pass over pieces that hold no comma and no surrounding
/// whitespace only drops the blank ones.
pub proof fn lemma_flattened_pieces(pieces: Seq<Seq<char>>)
    requires
        forall|k: int|
            0 <= k < pieces.len() ==> lacks(#[trigger] pieces[k], ',') && is_trimmed(pieces[k]),
    ensures
        flattened(pieces) == tokens_among(pieces),
    decreases pieces.len(),
{
    reveal(Seq::filter);
    if pieces.len() > 0 {
        let init = pieces.drop_last();
        assert forall|k: int| 0 <= k < init.len() implies lacks(#[trigger] init[k], ',')
            && is_trimmed(init[k]) by {
            assert(init[k] == pieces[k]);
        }
        lemma_flattened_pieces(init);
        let last = pieces[pieces.len() - 1];
        assert(lacks(last, ',') && is_trimmed(last));
        lemma_resplit_piece(last);
        if is_token(last) {
            assert(tokens_among(init) + seq![last] =~= tokens_among(init).push(last));
        } else {
            assert(tokens_among(init) + Seq::<Seq<char>>::empty() =~= tokens_among(init));
        }
    } else {
        assert(tokens_among(pieces) =~= Seq::<Seq<char>>::empty());
    }
}

/// Cleaning keeps the last character, so a token stays a token; it adds no
/// character that was not there.
pub proof fn lemma_without_stray_backslashes(token: Seq<char>)
    ensures
        without_stray_backslashes(token).len() <= token.len(),
        is_token(token) ==> is_token(without_stray_backslashes(token))
            && without_stray_backslashes(token).last() == token.last(),
        forall|c: char| without_stray_backslashes(token).contains(c) ==> token.contains(c),
        token.len() > 0 && token[0] != '\\' ==> without_stray_backslashes(token)[0] == token[0],
    decreases token.len(),
{
    if token.len() > 0 {
        let rest = token.drop_first();
        let cleaned = without_stray_backslashes(token);
        lemma_without_stray_backslashes(rest);
        if rest.len() > 0 {
            assert(rest.last() == token.last());
        }
        assert forall|c: char| cleaned.contains(c) implies token.contains(c) by {
            let i = choose|i: int| 0 <= i < cleaned.len() && cleaned[i] == c;
            if token.len() >= 2 && token[0] == '\\' && token[1] != '"' {
                assert(without_stray_backslashes(rest).contains(c));
            } else if i > 0 {
                assert(without_stray_backslashes(rest)[i - 1] == c);
                assert(without_stray_backslashes(rest).contains(c));
            } else {
                assert(token[0] == c);
            }
            if rest.contains(c) {
                let j = choose|j: int| 0 <= j < rest.len() && rest[j] == c;
                assert(token[j + 1] == c);
            }
        }
    }
}

/// Cleaning a cleaned token changes nothing.
pub proof fn lemma_without_stray_backslashes_idempotent(token: Seq<char>)
    ensures
        without_stray_backslashes(without_stray_backslashes(token)) == without_stray_backslashes(
            token,
        ),
    decreases token.len(),
{
    if token.len() > 0 {
        let rest = token.drop_first();
        lemma_without_stray_backslashes_idempotent(rest);
        lemma_without_stray_backslashes(rest);
        if token.len() >= 2 && token[0] == '\\' && token[1] != '"' {
        } else {
            let cleaned_rest = without_stray_backslashes(rest);
            let cleaned = seq![token[0]] + cleaned_rest;
            assert(cleaned.drop_first() =~= cleaned_rest);
            if token[0] == '\\' && cleaned_rest.len() > 0 {
                assert(rest[0] == '"');
                assert(cleaned[1] == cleaned_rest[0]);
            }
        }
    }
}

/// Every token of a normalized text is non-empty and holds no comma.
pub proof fn lemma_normalized_tokens(text: Seq<char>)
    ensures
        forall|k: int|
            0 <= k < normalized(text).len() ==> {
                &&& is_token(#[trigger] normalized(text)[k])
                &&& lacks(normalized(text)[k], ',')
                &&& !is_whitespace(normalized(text)[k].last())
            },
{
    let pieces = trimmed_pieces(text);
    let kept = tokens_among(pieces);
    lemma_trimmed_pieces(text);
    assert forall|k: int| 0 <= k < normalized(text).len() implies {
        &&& is_token(#[trigger] normalized(text)[k])
        &&& lacks(normalized(text)[k], ',')
        &&& !is_whitespace(normalized(text)[k].last())
    } by {
        let token = kept[k];
        pieces.lemma_filter_pred(|piece: Seq<char>| is_token(piece), k);
        lemma_kept_is_piece(pieces, k);
        let j = choose|j: int| 0 <= j < pieces.len() && pieces[j] == token;
        assert(lacks(pieces[j], ',') && is_trimmed(pieces[j]));
        lemma_without_stray_backslashes(token);
        let cleaned = without_stray_backslashes(token);
        assert forall|i: int| 0 <= i < cleaned.len() implies cleaned[i] != ',' by {
            let c = cleaned[i];
            assert(cleaned.contains(c));
            assert(token.contains(c));
        }
    }
}

proof fn lemma_kept_is_piece(pieces: Seq<Seq<char>>, k: int)
    requires
        0 <= k < tokens_among(pieces).len(),
    ensures
        exists|j: int| 0 <= j < pieces.len() && pieces[j] == tokens_among(pieces)[k],
    decreases pieces.len(),
{
    reveal(Seq::filter);
    if pieces.len() > 0 {
        let init = pieces.drop_last();
        if k < tokens_among(init).len() {
            lemma_kept_is_piece(init, k);
            let j = choose|j: int| 0 <= j < init.len() && init[j] == tokens_among(init)[k];
            assert(pieces[j] == tokens_among(pieces)[k]);
        } else {
            assert(pieces[pieces.len() - 1] == tokens_among(pieces)[k]);
        }
    }
}

/// The constructor tokens of an argument text, in the order of the text. An
/// absent text gives no tokens, and so does one of commas and whitespace
/// only. No token is empty.
pub fn parse_constructor_args(text: &Option<String>) -> (tokens: Vec<String>)
    ensures
        tokens.deep_view() == normalized_input(text.deep_view()),
        text is None ==> tokens.len() == 0,
        forall|k: int| 0 <= k < tokens.len() ==> is_token(#[trigger] tokens.deep_view()[k]),
{
    match text {
        None => {
            let tokens: Vec<String> = Vec::new();
            assert(tokens.deep_view() =~= Seq::<Seq<char>>::empty());
            tokens
        },
        Some(t) => {
            let pieces = split_and_trim(t.as_str());
            let kept = flatten_tokens(&pieces);
            proof {
                lemma_trimmed_pieces(t@);
                lemma_flattened_pieces(trimmed_pieces(t@));
                lemma_normalized_tokens(t@);
            }
            let n = kept.len();
            let mut tokens: Vec<String> = Vec::new();
            let mut i: usize = 0;
            while i < n
                invariant
                    i <= n,
                    n == kept.len(),
                    tokens.len() == i,
                    forall|k: int|
                        0 <= k < i ==> (#[trigger] tokens@[k])@ == without_stray_backslashes(
                            kept@[k]@,
                        ),
                decreases n - i,
            {
                let cleaned = strip_stray_backslashes(kept[i].as_str());
                tokens.push(cleaned);
                i += 1;
            }
            proof {
                assert(kept.deep_view().len() == n);
                assert forall|k: int| 0 <= k < n implies tokens.deep_view()[k] == normalized(
                    t@,
                )[k] by {
                    assert(kept.deep_view()[k] == kept@[k]@);
                }
                assert(tokens.deep_view() =~= normalized(t@));
            }
            tokens
        },
    }
}

/// Whether a token starts with a whitespace character.
pub open spec fn starts_with_whitespace(token: Seq<char>) -> bool {
    token.len() > 0 && is_whitespace(token[0])
}

/// Normalizing is idempotent: the tokens of a text, joined with commas and
/// normalized again, are the same tokens.
///
/// This holds of every text none of whose tokens starts with whitespace. A
/// token can start with whitespace only where cleaning took away a backslash
/// that stood before it, as in `\ x`; joined and normalized again, such a
/// token would be trimmed.
pub proof fn lemma_normalized_idempotent(text: Seq<char>)
    requires
        forall|k: int|
            0 <= k < normalized(text).len() ==> !starts_with_whitespace(
                #[trigger] normalized(text)[k],
            ),
    ensures
        normalized(join(normalized(text), ',')) == normalized(text),
{
    let tokens = normalized(text);
    let kept = tokens_among(trimmed_pieces(text));
    lemma_normalized_tokens(text);
    if tokens.len() == 0 {
        let nothing = Seq::<char>::empty();
        assert(join(tokens, ',') == nothing);
        lemma_split_lacking(nothing, ',');
        lemma_trim_is_range(nothing, 0, 0);
        assert(nothing.subrange(0, 0) =~= nothing);
        assert(trimmed_pieces(nothing) =~= seq![nothing]);
        reveal_with_fuel(Seq::filter, 2);
        assert(seq![nothing].drop_last() =~= Seq::<Seq<char>>::empty());
        assert(tokens_among(seq![nothing]) =~= Seq::<Seq<char>>::empty());
        assert(normalized(nothing) =~= tokens);
    } else {
        let joined = join(tokens, ',');
        lemma_split_join(tokens, ',');
        assert forall|k: int| 0 <= k < tokens.len() implies trim(#[trigger] tokens[k])
            == tokens[k] by {
            assert(!starts_with_whitespace(tokens[k]));
            lemma_trim_of_trimmed(tokens[k]);
        }
        assert(trimmed_pieces(joined) =~= tokens);
        lemma_tokens_among_tokens(tokens);
        assert forall|k: int| 0 <= k < tokens.len() implies without_stray_backslashes(
            #[trigger] tokens[k],
        ) == tokens[k] by {
            assert(tokens[k] == without_stray_backslashes(kept[k]));
            lemma_without_stray_backslashes_idempotent(kept[k]);
        }
        assert(normalized(joined) =~= tokens);
    }
}

/// The exclusion in [`lemma_normalized_idempotent`] is exact: where a token
/// starts with whitespace, normalizing the joined tokens again gives other
/// tokens.
pub proof fn lemma_normalized_twice_differs(text: Seq<char>, k: int)
    requires
        0 <= k < normalized(text).len(),
        starts_with_whitespace(normalized(text)[k]),
    ensures
        normalized(join(normalized(text), ',')) != normalized(text),
{
    let tokens = normalized(text);
    let joined = join(tokens, ',');
    lemma_normalized_tokens(text);
    lemma_split_join(tokens, ',');
    let pieces = trimmed_pieces(joined);
    assert forall|i: int| 0 <= i < pieces.len() implies is_token(#[trigger] pieces[i]) by {
        assert(pieces[i] == trim(tokens[i]));
        assert(is_token(tokens[i]));
        lemma_trim_at_the_ends(tokens[i]);
    }
    lemma_tokens_among_tokens(pieces);
    let again = normalized(joined);
    assert(again[k] == without_stray_backslashes(trim(tokens[k])));
    lemma_trim_at_the_ends(tokens[k]);
    lemma_without_stray_backslashes(trim(tokens[k]));
    assert(again[k].len() < tokens[k].len());
}

} // verus!
