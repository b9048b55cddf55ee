//! Splitting the path of a URL into its segments.
//!
//! A path is cut at every `/`. The pieces between the cuts may be empty (a
//! leading, trailing or doubled separator leaves one); the segments of a path
//! are its pieces that are not.

use vstd::prelude::*;
use vstd::string::*;

verus! {

/// The character that separates the segments of a path.
pub const SEPARATOR: char = '/';

/// No character of `s` is the separator.
pub open spec fn is_plain(s: Seq<char>) -> bool {
    forall|j: int| 0 <= j < s.len() ==> s[j] != SEPARATOR
}

/// The number of characters of `s` before its first separator; all of them
/// where it holds none.
pub open spec fn piece_len(s: Seq<char>) -> nat
    decreases s.len(),
{
    if s.len() == 0 || s[0] == SEPARATOR {
        0
    } else {
        1 + piece_len(s.drop_first())
    }
}

/// The pieces that the separators cut `s` into, from left to right, the empty
/// ones included.
pub open spec fn split(s: Seq<char>) -> Seq<Seq<char>>
    decreases s.len(),
{
    let n = piece_len(s) as int;
    if n >= s.len() {
        seq![s]
    } else {
        seq![s.take(n)] + split(s.skip(n + 1))
    }
}

/// Whether a piece counts as a segment: it is not empty.
pub open spec fn is_kept(piece: Seq<char>) -> bool {
    piece.len() > 0
}

/// The segments of a path: its pieces that are not empty, in order.
pub open spec fn segments(path: Seq<char>) -> Seq<Seq<char>> {
    split(path).filter(|piece: Seq<char>| is_kept(piece))
}

/// The text of each string slice of `slices`, in order.
pub open spec fn texts(slices: Seq<&str>) -> Seq<Seq<char>> {
    slices.map_values(|slice: &str| slice@)
}

/// `piece_len` stops at the first separator and not before.
pub proof fn lemma_piece_len(s: Seq<char>)
    ensures
        piece_len(s) <= s.len(),
        is_plain(s.take(piece_len(s) as int)),
        piece_len(s) < s.len() ==> s[piece_len(s) as int] == SEPARATOR,
    decreases s.len(),
{
    if s.len() == 0 || s[0] == SEPARATOR {
    } else {
        let rest = s.drop_first();
        lemma_piece_len(rest);
        let head = s.take(piece_len(s) as int);
        assert forall|j: int| 0 <= j < head.len() implies head[j] != SEPARATOR by {
            if j > 0 {
                assert(rest.take(piece_len(rest) as int)[j - 1] == s[j]);
            }
        }
    }
}

/// The first position that holds a separator, or the length where none does,
/// is what `piece_len` gives.
pub proof fn lemma_piece_len_is(s: Seq<char>, k: int)
    requires
        0 <= k <= s.len(),
        is_plain(s.take(k)),
        k < s.len() ==> s[k] == SEPARATOR,
    ensures
        piece_len(s) == k,
    decreases s.len(),
{
    if k == 0 {
    } else {
        assert(s.take(k)[0] == s[0]);
        let rest = s.drop_first();
        let head = rest.take(k - 1);
        assert forall|j: int| 0 <= j < head.len() implies head[j] != SEPARATOR by {
            assert(s.take(k)[j + 1] == rest[j]);
        }
        lemma_piece_len_is(rest, k - 1);
    }
}

/// A text without a separator is its own single piece.
pub proof fn lemma_split_plain(s: Seq<char>)
    requires
        is_plain(s),
    ensures
        split(s) == seq![s],
{
    assert(s.take(s.len() as int) == s);
    lemma_piece_len_is(s, s.len() as int);
}

/// Cutting a text that was glued from two with a separator between them gives
/// the pieces of the first, then those of the second.
pub proof fn lemma_split_concat(a: Seq<char>, b: Seq<char>)
    ensures
        split(a + seq![SEPARATOR] + b) == split(a) + split(b),
    decreases a.len(),
{
    let s = a + seq![SEPARATOR] + b;
    let n = piece_len(a) as int;
    lemma_piece_len(a);
    assert(s.take(n) == a.take(n));
    lemma_piece_len_is(s, n);
    if n >= a.len() {
        assert(s.take(n) == a);
        assert(s.skip(n + 1) == b);
    } else {
        let tail = a.skip(n + 1);
        assert(s.skip(n + 1) == tail + seq![SEPARATOR] + b);
        lemma_split_concat(tail, b);
    }
}

/// The segments of a text glued from two with a separator between them are
/// the segments of the first, then those of the second.
pub proof fn lemma_segments_concat(a: Seq<char>, b: Seq<char>)
    ensures
        segments(a + seq![SEPARATOR] + b) == segments(a) + segments(b),
{
    lemma_split_concat(a, b);
    Seq::filter_distributes_over_add(split(a), split(b), |piece: Seq<char>| is_kept(piece));
}

/// A text without a separator is its own single segment, unless it is empty:
/// then it has none.
pub proof fn lemma_segments_plain(s: Seq<char>)
    requires
        is_plain(s),
    ensures
        segments(s) == if s.len() > 0 {
            seq![s]
        } else {
            Seq::<Seq<char>>::empty()
        },
{
    lemma_split_plain(s);
    reveal_with_fuel(Seq::filter, 2);
    assert(seq![s].drop_last() == Seq::<Seq<char>>::empty());
}

/// No piece holds a separator.
pub proof fn lemma_split_pieces_are_plain(s: Seq<char>, k: int)
    requires
        0 <= k < split(s).len(),
    ensures
        is_plain(split(s)[k]),
    decreases s.len(),
{
    let n = piece_len(s) as int;
    lemma_piece_len(s);
    if n >= s.len() {
        assert(s.take(n) == s);
    } else if k > 0 {
        lemma_split_pieces_are_plain(s.skip(n + 1), k - 1);
    }
}

/// The pieces glued together again, with a separator between neighbours.
pub open spec fn join(pieces: Seq<Seq<char>>) -> Seq<char>
    decreases pieces.len(),
{
    if pieces.len() == 0 {
        Seq::empty()
    } else if pieces.len() == 1 {
        pieces[0]
    } else {
        pieces[0] + seq![SEPARATOR] + join(pieces.drop_first())
    }
}

/// Cutting loses nothing: there is always at least one piece, and the pieces
/// of a text, glued together again, are that text.
pub proof fn lemma_join_split(s: Seq<char>)
    ensures
        split(s).len() >= 1,
        join(split(s)) == s,
    decreases s.len(),
{
    let n = piece_len(s) as int;
    lemma_piece_len(s);
    if n < s.len() {
        let rest = split(s.skip(n + 1));
        lemma_join_split(s.skip(n + 1));
        assert(split(s).drop_first() == rest);
        assert(s == s.take(n) + seq![SEPARATOR] + s.skip(n + 1));
    }
}

/// Every segment holds at least one character and no separator.
pub proof fn lemma_segments_are_plain(path: Seq<char>, i: int)
    requires
        0 <= i < segments(path).len(),
    ensures
        segments(path)[i].len() > 0,
        is_plain(segments(path)[i]),
{
    let kept = |piece: Seq<char>| is_kept(piece);
    let segment = segments(path)[i];
    split(path).lemma_filter_pred(kept, i);
    assert(segments(path).contains(segment));
    split(path).lemma_filter_contains_rev(kept, segment);
    let k = choose|k: int| 0 <= k < split(path).len() && split(path)[k] == segment;
    lemma_split_pieces_are_plain(path, k);
}

/// A path that starts with a separator, an owner, a separator and a name, and
/// then ends or goes on with a separator, has the owner as its first segment
/// and the name as its second.
pub proof fn lemma_segments_of_repo_path(owner: Seq<char>, name: Seq<char>, rest: Seq<char>)
    requires
        owner.len() > 0,
        is_plain(owner),
        name.len() > 0,
        is_plain(name),
        rest.len() == 0 || rest[0] == SEPARATOR,
    ensures
        segments(seq![SEPARATOR] + owner + seq![SEPARATOR] + name + rest) == seq![owner, name] + (
        if rest.len() == 0 {
            Seq::<Seq<char>>::empty()
        } else {
            segments(rest.skip(1))
        }),
{
    let path = seq![SEPARATOR] + owner + seq![SEPARATOR] + name + rest;
    let nothing = Seq::<char>::empty();
    let behind_owner = name + rest;
    assert(path == nothing + seq![SEPARATOR] + (owner + seq![SEPARATOR] + behind_owner));
    lemma_segments_concat(nothing, owner + seq![SEPARATOR] + behind_owner);
    lemma_segments_plain(nothing);
    lemma_segments_concat(owner, behind_owner);
    lemma_segments_plain(owner);
    lemma_segments_plain(name);
    if rest.len() == 0 {
        assert(behind_owner == name);
    } else {
        assert(behind_owner == name + seq![SEPARATOR] + rest.skip(1));
        lemma_segments_concat(name, rest.skip(1));
    }
}

/// Cuts `path` at every separator and returns the pieces that are not empty,
/// in order, as slices of `path`.
pub fn path_segments<'a>(path: &'a str) -> (found: Vec<&'a str>)
    ensures
        texts(found@) == segments(path@),
{
    let total: usize = path.unicode_len();
    let mut found: Vec<&'a str> = Vec::new();
    let mut start: usize = 0;
    let mut i: usize = 0;
    assert(path@.skip(0) == path@);
    assert(texts(found@) + segments(path@) == segments(path@));
    for c in chars: path.chars()
        invariant
            chars.seq() == path@,
            i == chars.index(),
            total == path@.len(),
            start <= i <= total,
            forall|j: int| start <= j < i ==> path@[j] != SEPARATOR,
            segments(path@) == texts(found@) + segments(path@.skip(start as int)),
    {
        if c == SEPARATOR {
            proof {
                lemma_segments_at_separator(path@, start as int, i as int);
            }
            if start < i {
                let ghost before = found@;
                let segment = path.substring_char(start, i);
                found.push(segment);
                assert(texts(found@) == texts(before) + seq![segment@]);
            }
            start = i + 1;
        }
        i = i + 1;
    }
    proof {
        lemma_segments_plain(path@.skip(start as int));
    }
    if start < total {
        let ghost before = found@;
        let segment = path.substring_char(start, total);
        found.push(segment);
        assert(texts(found@) == texts(before) + seq![segment@]);
    }
    found
}

/// Where a separator stands at `at` and none between `start` and `at`, the
/// segments from `start` on are the text between the two, if there is any,
/// and then the segments behind the separator.
proof fn lemma_segments_at_separator(path: Seq<char>, start: int, at: int)
    requires
        0 <= start <= at < path.len(),
        forall|j: int| start <= j < at ==> path[j] != SEPARATOR,
        path[at] == SEPARATOR,
    ensures
        segments(path.skip(start)) == (if start < at {
            seq![path.subrange(start, at)]
        } else {
            Seq::<Seq<char>>::empty()
        }) + segments(path.skip(at + 1)),
{
    let head = path.subrange(start, at);
    let tail = path.skip(at + 1);
    assert(path.skip(start) == head + seq![SEPARATOR] + tail);
    lemma_segments_concat(head, tail);
    lemma_segments_plain(head);
}

} // verus!
