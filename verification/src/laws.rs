//! General laws of the parser, proved once and for all inputs: how a
//! well-formed tag line decodes, when each bracket error is reported, the
//! parity rule of half-move attribution, the harmlessness of a dangling
//! move-number marker, and the determinism of the whole parse.

use vstd::prelude::*;

use crate::chars::{lemma_find_ws_bounds, lemma_skip_ws_bounds, spec_find_ws, spec_is_ws, spec_skip_ws};
use crate::game::{spec_parse_game, PgnView};
use crate::movetext::{
    spec_attributed, spec_half_move_tokens, spec_is_marker, spec_move_of, spec_nonmarker_tokens,
    MoveView,
};
use crate::tag::{
    spec_decode_tag, spec_dispatch, spec_key_of, spec_raw_value_of, spec_strip_quotes,
    TagErrorView, TagView,
};

verus! {

/// A well-formed tag line built from a key and a value: the key, one
/// space, and the value in quotes, all in brackets.
pub open spec fn spec_tag_line(key: Seq<char>, value: Seq<char>) -> Seq<char> {
    seq!['['] + key + seq![' ', '"'] + value + seq!['"', ']']
}

/// The keys whose tags keep their value as free text.
pub open spec fn spec_is_text_key(key: Seq<char>) -> bool {
    ||| key == "Event"@
    ||| key == "Site"@
    ||| key == "Round"@
    ||| key == "White"@
    ||| key == "Black"@
    ||| key == "Result"@
    ||| key == "ECO"@
    ||| key == "Annotator"@
    ||| key == "Variant"@
    ||| key == "TimeControl"@
    ||| key == "Opening"@
    ||| key == "Termination"@
}

/// All the known tag keys.
pub open spec fn spec_is_known_key(key: Seq<char>) -> bool {
    ||| spec_is_text_key(key)
    ||| key == "Date"@
    ||| key == "UTCDate"@
    ||| key == "WhiteElo"@
    ||| key == "BlackElo"@
    ||| key == "WhiteRatingDiff"@
    ||| key == "BlackRatingDiff"@
    ||| key == "EndTime"@
    ||| key == "UTCTime"@
}

/// The text tag that a free-text key builds around a value.
pub open spec fn spec_text_tag(key: Seq<char>, value: Seq<char>) -> TagView {
    if key == "Event"@ {
        TagView::Event(value)
    } else if key == "Site"@ {
        TagView::Site(value)
    } else if key == "Round"@ {
        TagView::Round(value)
    } else if key == "White"@ {
        TagView::White(value)
    } else if key == "Black"@ {
        TagView::Black(value)
    } else if key == "Result"@ {
        TagView::Result(value)
    } else if key == "ECO"@ {
        TagView::Eco(value)
    } else if key == "Annotator"@ {
        TagView::Annotator(value)
    } else if key == "Variant"@ {
        TagView::Variant(value)
    } else if key == "TimeControl"@ {
        TagView::TimeControl(value)
    } else if key == "Opening"@ {
        TagView::Opening(value)
    } else {
        TagView::Termination(value)
    }
}

/// A line that does not begin with `[` decodes to the opening-bracket
/// error; one that begins with `[` but does not end with `]` decodes to
/// the closing-bracket error.
pub proof fn lemma_bracket_errors(line: Seq<char>)
    ensures
        (line.len() == 0 || line[0] != '[') ==> spec_decode_tag(line) == Err::<
            TagView,
            TagErrorView,
        >(TagErrorView::NoOpeningSquareBracket),
        (line.len() > 0 && line[0] == '[' && line.last() != ']') ==> spec_decode_tag(line)
            == Err::<TagView, TagErrorView>(TagErrorView::NoClosingSquareBracket),
{
}

/// Decoding the well-formed line `[key "value"]` splits it back into
/// exactly that key and that value and dispatches on them, whatever they
/// are, as long as the key is non-empty and free of whitespace.
pub proof fn lemma_tag_line_decodes(key: Seq<char>, value: Seq<char>)
    requires
        key.len() > 0,
        forall|i: int| 0 <= i < key.len() ==> !spec_is_ws(key[i]),
    ensures
        spec_decode_tag(spec_tag_line(key, value)) == spec_dispatch(key, value),
{
    let line = spec_tag_line(key, value);
    let kl = key.len() as int;
    let vl = value.len() as int;
    assert(seq!['['].len() == 1);
    assert(seq![' ', '"'].len() == 2);
    assert(seq!['"', ']'].len() == 2);
    assert(line.len() == kl + vl + 5);
    assert(line[0] == '[');
    assert(line.last() == ']');
    let inner = line.subrange(1, line.len() - 1);
    assert(inner =~= key + seq![' ', '"'] + value + seq!['"']);
    assert(inner.len() == kl + vl + 3);
    let f = spec_find_ws(inner, 0);
    lemma_find_ws_bounds(inner, 0);
    assert(inner[kl] == ' ');
    assert(forall|j: int| 0 <= j < kl ==> inner[j] == key[j]);
    assert(f <= kl) by {
        if f > kl {
            assert(!spec_is_ws(inner[kl]));
        }
    }
    assert(f == kl) by {
        if f < kl {
            assert(spec_is_ws(inner[f]));
            assert(!spec_is_ws(key[f]));
        }
    }
    let g = spec_skip_ws(inner, f);
    lemma_skip_ws_bounds(inner, f);
    assert(inner[kl + 1] == '"');
    assert(g <= kl + 1) by {
        if g > kl + 1 {
            assert(spec_is_ws(inner[kl + 1]));
        }
    }
    assert(g == kl + 1) by {
        if g == kl {
            assert(!spec_is_ws(inner[g]));
        }
    }
    assert(spec_key_of(inner) =~= key);
    let raw = spec_raw_value_of(inner);
    assert(raw =~= seq!['"'] + value + seq!['"']);
    let a = raw.drop_first();
    assert(raw[0] == '"');
    assert(a =~= value + seq!['"']);
    assert(a.last() == '"');
    assert(a.drop_last() =~= value);
    assert(spec_strip_quotes(raw) == value);
    assert(spec_decode_tag(line) == spec_dispatch(key, value));
}

/// For every free-text key and every value, decoding `[key "value"]`
/// succeeds and reconstructs the value, quote-stripped and otherwise
/// untouched, inside the tag kind that the key names.
pub proof fn lemma_text_tag_round_trip(key: Seq<char>, value: Seq<char>)
    requires
        spec_is_text_key(key),
    ensures
        spec_decode_tag(spec_tag_line(key, value)) == Ok::<TagView, TagErrorView>(
            spec_text_tag(key, value),
        ),
{
    reveal_strlit("Event");
    reveal_strlit("Site");
    reveal_strlit("Date");
    reveal_strlit("UTCDate");
    reveal_strlit("Round");
    reveal_strlit("White");
    reveal_strlit("Black");
    reveal_strlit("Result");
    reveal_strlit("WhiteElo");
    reveal_strlit("BlackElo");
    reveal_strlit("ECO");
    reveal_strlit("Annotator");
    reveal_strlit("WhiteRatingDiff");
    reveal_strlit("BlackRatingDiff");
    reveal_strlit("Variant");
    reveal_strlit("TimeControl");
    reveal_strlit("Opening");
    reveal_strlit("Termination");
    reveal_strlit("EndTime");
    reveal_strlit("UTCTime");
    assert(key.len() > 0);
    assert(forall|i: int| 0 <= i < key.len() ==> !spec_is_ws(#[trigger] key[i]));
    lemma_tag_line_decodes(key, value);
}

/// For every unknown key, decoding `[key "value"]` fails with the
/// unknown-tag error carrying exactly that key and that value.
pub proof fn lemma_unknown_key_reported(key: Seq<char>, value: Seq<char>)
    requires
        key.len() > 0,
        forall|i: int| 0 <= i < key.len() ==> !spec_is_ws(key[i]),
        !spec_is_known_key(key),
    ensures
        spec_decode_tag(spec_tag_line(key, value)) == Err::<TagView, TagErrorView>(
            TagErrorView::UnknownTag(key, value),
        ),
{
    lemma_tag_line_decodes(key, value);
}

/// The parity law of attribution: the half-move numbered `i + 1` (the one
/// at position `i`) is White's exactly when `i + 1` is odd, Black's
/// exactly when it is even.
pub proof fn lemma_half_move_parity(hm: Seq<Seq<char>>, i: int)
    requires
        0 <= i < hm.len(),
    ensures
        spec_attributed(hm)[i] == spec_move_of(i + 1, hm[i]),
        (i + 1) % 2 == 1 ==> spec_attributed(hm)[i] == MoveView::White(hm[i]),
        (i + 1) % 2 == 0 ==> spec_attributed(hm)[i] == MoveView::Black(hm[i]),
{
}

/// A marker token contributes no half-move.
proof fn lemma_nonmarker_push_marker(toks: Seq<Seq<char>>, m: Seq<char>)
    requires
        spec_is_marker(m),
    ensures
        spec_nonmarker_tokens(toks.push(m)) == spec_nonmarker_tokens(toks),
    decreases toks.len(),
{
    if toks.len() == 0 {
        assert(toks.push(m) =~= seq![m]);
        assert(seq![m][0] == m);
        assert(seq![m].drop_first() =~= Seq::<Seq<char>>::empty());
        assert(spec_nonmarker_tokens(Seq::<Seq<char>>::empty()) == Seq::<Seq<char>>::empty());
        assert(spec_nonmarker_tokens(seq![m]) == Seq::<Seq<char>>::empty());
    } else {
        assert(toks.push(m)[0] == toks[0]);
        assert(toks.push(m).drop_first() =~= toks.drop_first().push(m));
        lemma_nonmarker_push_marker(toks.drop_first(), m);
        assert(spec_nonmarker_tokens(toks.push(m)) == spec_nonmarker_tokens(toks));
    }
}

/// A dangling trailing move-number marker produces no half-move: the
/// movetext that ends in a bare marker yields exactly the moves of the
/// movetext without it.
pub proof fn lemma_trailing_marker_produces_no_move(toks: Seq<Seq<char>>, m: Seq<char>)
    requires
        spec_is_marker(m),
    ensures
        spec_attributed(spec_half_move_tokens(toks.push(m))) == spec_attributed(
            spec_half_move_tokens(toks),
        ),
    decreases toks.len(),
{
    if toks.len() == 0 {
        assert(toks.push(m) =~= seq![m]);
        assert(seq![m][0] == m);
        assert(seq![m].drop_first() =~= Seq::<Seq<char>>::empty());
        assert(spec_half_move_tokens(toks.push(m)) == spec_nonmarker_tokens(
            Seq::<Seq<char>>::empty(),
        ));
        assert(spec_half_move_tokens(toks) == spec_nonmarker_tokens(Seq::<Seq<char>>::empty()));
    } else {
        assert(toks.push(m)[0] == toks[0]);
        assert(toks.push(m).drop_first() =~= toks.drop_first().push(m));
        if spec_is_marker(toks[0]) {
            lemma_nonmarker_push_marker(toks.drop_first(), m);
        } else {
            lemma_trailing_marker_produces_no_move(toks.drop_first(), m);
        }
    }
}

/// Parsing is a pure function of the input lines: two parses of the same
/// lines yield structurally equal parsed-game records.
pub proof fn lemma_parse_deterministic(lines: Seq<Seq<char>>, p1: PgnView, p2: PgnView)
    requires
        p1 == spec_parse_game(lines),
        p2 == spec_parse_game(lines),
    ensures
        p1 == p2,
{
}

} // verus!
