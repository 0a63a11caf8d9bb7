//! The movetext tokenizer: the non-tag lines of a game become an ordered
//! sequence of half-moves, each attributed to the player who made it.
//!
//! Tag lines (those starting with `[`) and empty lines are discarded; the
//! rest are joined with single spaces into one flat stream.  The stream is
//! cut at move-number markers (a run of digits followed by a period and
//! whitespace, such as `12. `); whatever precedes the first marker is
//! discarded, the markers themselves produce no move, and every other
//! token is a half-move kept verbatim.  The n-th half-move belongs to
//! White when n is odd and to Black when n is even, n counting flattened
//! half-moves from 1.  A dangling marker with nothing after it simply
//! produces no move.

use vstd::prelude::*;

use crate::chars::{is_digit, is_ws, spec_is_digit, spec_is_ws};
use crate::numbers::{parse_u16, spec_parse_u16};

verus! {

/// One half-move: the player who made it and its textual notation,
/// verbatim.
#[derive(Debug, PartialEq, Eq)]
pub enum Move {
    Black(String),
    White(String),
}

/// The mathematical value of a [`Move`].
pub enum MoveView {
    Black(Seq<char>),
    White(Seq<char>),
}

impl View for Move {
    type V = MoveView;

    open spec fn view(&self) -> MoveView {
        match self {
            Move::Black(s) => MoveView::Black(s@),
            Move::White(s) => MoveView::White(s@),
        }
    }
}

/// The views of a sequence of strings.
pub open spec fn spec_str_views(ts: Seq<String>) -> Seq<Seq<char>> {
    ts.map_values(|t: String| t@)
}

/// The views of a sequence of moves.
pub open spec fn spec_move_views(ms: Seq<Move>) -> Seq<MoveView> {
    ms.map_values(|m: Move| m@)
}

/// A line takes part in movetext when it is non-empty and is not a tag
/// line.
pub open spec fn spec_is_movetext_line(l: Seq<char>) -> bool {
    l.len() > 0 && l[0] != '['
}

/// The movetext lines of `lines` after the first kept one, each preceded
/// by the single-space separator.
pub open spec fn spec_rest_stream(lines: Seq<Seq<char>>) -> Seq<char>
    decreases lines.len(),
{
    if lines.len() == 0 {
        Seq::empty()
    } else if spec_is_movetext_line(lines[0]) {
        seq![' '] + lines[0] + spec_rest_stream(lines.drop_first())
    } else {
        spec_rest_stream(lines.drop_first())
    }
}

/// The flat movetext stream: the kept lines joined with single spaces.
pub open spec fn spec_stream(lines: Seq<Seq<char>>) -> Seq<char>
    decreases lines.len(),
{
    if lines.len() == 0 {
        Seq::empty()
    } else if spec_is_movetext_line(lines[0]) {
        lines[0] + spec_rest_stream(lines.drop_first())
    } else {
        spec_stream(lines.drop_first())
    }
}

/// The end of the maximal whitespace-free run of `s` that starts at `i`.
pub open spec fn spec_run_end(s: Seq<char>, i: int) -> int
    decreases s.len() - i,
{
    if i < 0 || i >= s.len() || spec_is_ws(s[i]) {
        i
    } else {
        spec_run_end(s, i + 1)
    }
}

pub proof fn lemma_run_end_bounds(s: Seq<char>, i: int)
    requires
        0 <= i <= s.len(),
    ensures
        i <= spec_run_end(s, i) <= s.len(),
        forall|j: int| i <= j < spec_run_end(s, i) ==> !spec_is_ws(s[j]),
        i < s.len() && !spec_is_ws(s[i]) ==> spec_run_end(s, i) > i,
    decreases s.len() - i,
{
    if i < s.len() && !spec_is_ws(s[i]) {
        lemma_run_end_bounds(s, i + 1);
    }
}

/// The whitespace-separated tokens of `s` from position `i` on.
pub open spec fn spec_tokens_from(s: Seq<char>, i: int) -> Seq<Seq<char>>
    decreases s.len() - i,
    when 0 <= i
    via spec_tokens_from_decreases
{
    if i >= s.len() {
        Seq::empty()
    } else if spec_is_ws(s[i]) {
        spec_tokens_from(s, i + 1)
    } else {
        seq![s.subrange(i, spec_run_end(s, i))] + spec_tokens_from(s, spec_run_end(s, i))
    }
}

#[via_fn]
proof fn spec_tokens_from_decreases(s: Seq<char>, i: int) {
    if 0 <= i < s.len() && !spec_is_ws(s[i]) {
        lemma_run_end_bounds(s, i);
    }
}

/// The tokens of the whole stream.
pub open spec fn spec_tokens(s: Seq<char>) -> Seq<Seq<char>> {
    spec_tokens_from(s, 0)
}

/// A move-number marker: one or more digits followed by a period.  In the
/// stream such a token is always followed by whitespace or by the end of
/// the text, the two boundaries the tokenizer cuts at.
pub open spec fn spec_is_marker(t: Seq<char>) -> bool {
    t.len() >= 2 && t.last() == '.' && (forall|i: int| 0 <= i < t.len() - 1 ==> spec_is_digit(t[i]))
}

/// Everything after the first marker token; empty when no token is a
/// marker, so that text before the first marker is discarded.
pub open spec fn spec_after_first_marker(toks: Seq<Seq<char>>) -> Seq<Seq<char>>
    decreases toks.len(),
{
    if toks.len() == 0 {
        Seq::empty()
    } else if spec_is_marker(toks[0]) {
        toks.drop_first()
    } else {
        spec_after_first_marker(toks.drop_first())
    }
}

/// The tokens that are not markers, in order.
pub open spec fn spec_nonmarker_tokens(toks: Seq<Seq<char>>) -> Seq<Seq<char>>
    decreases toks.len(),
{
    if toks.len() == 0 {
        Seq::empty()
    } else if spec_is_marker(toks[0]) {
        spec_nonmarker_tokens(toks.drop_first())
    } else {
        seq![toks[0]] + spec_nonmarker_tokens(toks.drop_first())
    }
}

/// The half-move tokens of a token stream: what stands after the first
/// marker, with the later markers cut out.
pub open spec fn spec_half_move_tokens(toks: Seq<Seq<char>>) -> Seq<Seq<char>> {
    spec_nonmarker_tokens(spec_after_first_marker(toks))
}

/// The half-move numbered `n` (counted from 1): White's when `n` is odd,
/// Black's when `n` is even.
pub open spec fn spec_move_of(n: int, tok: Seq<char>) -> MoveView {
    if n % 2 == 1 {
        MoveView::White(tok)
    } else {
        MoveView::Black(tok)
    }
}

/// Attributes the half-move tokens `hm` when `start` half-moves precede
/// them: the i-th of `hm` is half-move number `start + i + 1`.
pub open spec fn spec_attribute_from(hm: Seq<Seq<char>>, start: int) -> Seq<MoveView> {
    Seq::new(hm.len(), |i: int| spec_move_of(start + i + 1, hm[i]))
}

/// Attributes a whole half-move token sequence, starting at half-move 1.
pub open spec fn spec_attributed(hm: Seq<Seq<char>>) -> Seq<MoveView> {
    spec_attribute_from(hm, 0)
}

/// The half-moves that a sequence of raw lines denotes.
pub open spec fn spec_moves_of_lines(lines: Seq<Seq<char>>) -> Seq<MoveView> {
    spec_attributed(spec_half_move_tokens(spec_tokens(spec_stream(lines))))
}

impl Move {
    /// Builds the half-move numbered by the text `value.0` with notation
    /// `value.1`: White's move when the number is odd, Black's when it is
    /// even.
    pub fn from(value: (&str, &str)) -> (r: Move)
        requires
            spec_parse_u16(value.0@) is Some,
        ensures
            spec_parse_u16(value.0@) matches Some(n) ==> r@ == spec_move_of(
                n as int,
                value.1@,
            ),
    {
        match parse_u16(value.0) {
            Some(n) => attribute_move(n, value.1),
            None => {
                proof {
                    assert(false);
                }
                Move::White(String::from_str(value.1))
            },
        }
    }
}

/// Builds the half-move numbered `n` with notation `tok`, by the parity
/// rule of [`spec_move_of`].
pub fn attribute_move(n: u16, tok: &str) -> (r: Move)
    ensures
        r@ == spec_move_of(n as int, tok@),
{
    if n % 2 == 1 {
        Move::White(String::from_str(tok))
    } else {
        Move::Black(String::from_str(tok))
    }
}

/// Joins the kept movetext lines into one stream, with single-space
/// separators, exactly as [`spec_stream`] describes.
pub fn join_movetext(lines: &Vec<String>) -> (s: String)
    ensures
        s@ == spec_stream(spec_str_views(lines@)),
{
    let ghost all = spec_str_views(lines@);
    proof {
        assert(all.skip(0) =~= all);
    }
    let mut out = String::new();
    let mut started = false;
    let mut i: usize = 0;
    while i < lines.len()
        invariant
            i <= lines.len(),
            all == spec_str_views(lines@),
            !started ==> out@ == Seq::<char>::empty() && spec_stream(all) == spec_stream(
                all.skip(i as int),
            ),
            started ==> spec_stream(all) == out@ + spec_rest_stream(all.skip(i as int)),
        decreases lines.len() - i,
    {
        proof {
            assert(all.skip(i as int).drop_first() =~= all.skip(i + 1));
            assert(all.skip(i as int)[0] == lines@[i as int]@);
        }
        let line = lines[i].as_str();
        let n = line.unicode_len();
        if n > 0 && line.get_char(0) != '[' {
            if started {
                out.append(" ");
                proof {
                    reveal_strlit(" ");
                    assert(" "@ =~= seq![' ']);
                }
            } else {
                started = true;
            }
            out.append(line);
        }
        i = i + 1;
    }
    proof {
        assert(all.skip(lines@.len() as int) =~= Seq::<Seq<char>>::empty());
    }
    out
}

/// Whether `t` is a move-number marker, exactly as [`spec_is_marker`]
/// describes.
pub fn is_marker(t: &str) -> (r: bool)
    ensures
        r == spec_is_marker(t@),
{
    let n = t.unicode_len();
    if n < 2 {
        return false;
    }
    if t.get_char(n - 1) != '.' {
        return false;
    }
    let mut i: usize = 0;
    while i < n - 1
        invariant
            i <= n - 1,
            n == t@.len(),
            2 <= n,
            t@.last() == '.',
            forall|j: int| 0 <= j < i ==> spec_is_digit(t@[j]),
        decreases n - 1 - i,
    {
        if !is_digit(t.get_char(i)) {
            return false;
        }
        i = i + 1;
    }
    true
}

/// Splits a stream into its whitespace-separated tokens, exactly as
/// [`spec_tokens`] describes.
pub fn tokenize(s: &str) -> (toks: Vec<String>)
    ensures
        spec_str_views(toks@) == spec_tokens(s@),
{
    let n = s.unicode_len();
    let mut toks: Vec<String> = Vec::new();
    let mut i: usize = 0;
    while i < n
        invariant
            i <= n,
            n == s@.len(),
            spec_tokens(s@) == spec_str_views(toks@) + spec_tokens_from(s@, i as int),
        decreases n - i,
    {
        if is_ws(s.get_char(i)) {
            i = i + 1;
        } else {
            let mut j = i + 1;
            while j < n && !is_ws(s.get_char(j))
                invariant
                    i < j <= n,
                    n == s@.len(),
                    spec_run_end(s@, i as int) == spec_run_end(s@, j as int),
                decreases n - j,
            {
                j = j + 1;
            }
            let tok = String::from_str(s.substring_char(i, j));
            proof {
                assert(spec_str_views(toks@.push(tok)) =~= spec_str_views(toks@).push(tok@));
                assert(spec_str_views(toks@).push(tok@) + spec_tokens_from(s@, j as int) =~= spec_str_views(
                    toks@,
                ) + (seq![tok@] + spec_tokens_from(s@, j as int)));
            }
            toks.push(tok);
            i = j;
        }
    }
    proof {
        assert(spec_str_views(toks@) =~= spec_str_views(toks@) + spec_tokens_from(s@, n as int));
    }
    toks
}

/// Turns a token stream into attributed half-moves: everything before the
/// first marker is discarded, markers produce no move, and the remaining
/// tokens alternate between White and Black starting with White, exactly
/// as [`spec_attributed`] over [`spec_half_move_tokens`] describes.
pub fn moves_of_tokens(toks: &Vec<String>) -> (moves: Vec<Move>)
    ensures
        spec_move_views(moves@) == spec_attributed(spec_half_move_tokens(spec_str_views(toks@))),
{
    let ghost all = spec_str_views(toks@);
    proof {
        assert(all.skip(0) =~= all);
    }
    let mut moves: Vec<Move> = Vec::new();
    let mut seen = false;
    let ghost mut done: Seq<Seq<char>> = Seq::empty();
    let mut i: usize = 0;
    while i < toks.len()
        invariant
            i <= toks.len(),
            all == spec_str_views(toks@),
            seen ==> spec_half_move_tokens(all) == done + spec_nonmarker_tokens(
                all.skip(i as int),
            ),
            !seen ==> done == Seq::<Seq<char>>::empty() && spec_after_first_marker(all)
                == spec_after_first_marker(all.skip(i as int)),
            moves@.len() == done.len(),
            spec_move_views(moves@) == spec_attribute_from(done, 0),
        decreases toks.len() - i,
    {
        proof {
            assert(all.skip(i as int).drop_first() =~= all.skip(i + 1));
            assert(all.skip(i as int)[0] == toks@[i as int]@);
        }
        let t = &toks[i];
        if is_marker(t.as_str()) {
            if !seen {
                seen = true;
            }
        } else {
            if seen {
                let white = moves.len() % 2 == 0;
                let mv = if white {
                    Move::White(t.clone())
                } else {
                    Move::Black(t.clone())
                };
                proof {
                    assert(spec_attribute_from(done.push(t@), 0) =~= spec_attribute_from(
                        done,
                        0,
                    ).push(spec_move_of(done.len() as int + 1, t@)));
                    assert(spec_move_views(moves@.push(mv)) =~= spec_move_views(moves@).push(mv@));
                    assert(done.push(t@) + spec_nonmarker_tokens(all.skip(i + 1)) =~= done + (seq![
                        t@,
                    ] + spec_nonmarker_tokens(all.skip(i + 1))));
                }
                moves.push(mv);
                proof {
                    done = done.push(t@);
                }
            }
        }
        i = i + 1;
    }
    proof {
        assert(all.skip(toks@.len() as int) =~= Seq::<Seq<char>>::empty());
        if seen {
            assert(spec_half_move_tokens(all) =~= done);
        } else {
            assert(spec_half_move_tokens(all) =~= Seq::<Seq<char>>::empty());
            assert(spec_move_views(moves@) =~= spec_attributed(spec_half_move_tokens(all)));
        }
    }
    moves
}

/// Parses the movetext of a whole line sequence into attributed
/// half-moves, exactly as [`spec_moves_of_lines`] describes.
pub fn parse_moves(lines: &Vec<String>) -> (moves: Vec<Move>)
    ensures
        spec_move_views(moves@) == spec_moves_of_lines(spec_str_views(lines@)),
{
    let stream = join_movetext(lines);
    let toks = tokenize(stream.as_str());
    moves_of_tokens(&toks)
}

} // verus!
