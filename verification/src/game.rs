//! The parsed-game record: the tag decoder and the movetext tokenizer run
//! over the same line sequence, and their outputs stand side by side.
//!
//! The two passes are independent: a malformed tag line never prevents
//! movetext parsing, and a malformed movetext never prevents tag decoding.

use vstd::prelude::*;

use crate::movetext::{
    parse_moves, spec_move_views, spec_moves_of_lines, spec_str_views, Move, MoveView,
};
use crate::tag::{spec_decode_tag, spec_tag_result_view, Tag, TagError, TagErrorView, TagView};

verus! {

/// The decoding outcomes of the tag lines of `lines` (those starting with
/// `[`), in source order; the other lines contribute nothing here.
pub open spec fn spec_tag_results(lines: Seq<Seq<char>>) -> Seq<Result<TagView, TagErrorView>>
    decreases lines.len(),
{
    if lines.len() == 0 {
        Seq::empty()
    } else if lines[0].len() > 0 && lines[0][0] == '[' {
        seq![spec_decode_tag(lines[0])] + spec_tag_results(lines.drop_first())
    } else {
        spec_tag_results(lines.drop_first())
    }
}

/// The views of a sequence of tag results.
pub open spec fn spec_tag_result_views(rs: Seq<Result<Tag, TagError>>) -> Seq<
    Result<TagView, TagErrorView>,
> {
    rs.map_values(|r: Result<Tag, TagError>| spec_tag_result_view(r))
}

/// The mathematical value of a parsed game: its ordered tag results and
/// its ordered half-moves.
pub struct PgnView {
    pub tags: Seq<Result<TagView, TagErrorView>>,
    pub moves: Seq<MoveView>,
}

/// What a whole line sequence parses to: both passes over the same lines.
pub open spec fn spec_parse_game(lines: Seq<Seq<char>>) -> PgnView {
    PgnView { tags: spec_tag_results(lines), moves: spec_moves_of_lines(lines) }
}

/// A parsed game: the ordered tag results and the ordered half-moves,
/// built in one pass over the input lines and read-only afterward.
#[derive(Debug, PartialEq, Eq)]
pub struct Pgn {
    tags: Vec<Result<Tag, TagError>>,
    moves: Vec<Move>,
}

impl View for Pgn {
    type V = PgnView;

    closed spec fn view(&self) -> PgnView {
        PgnView {
            tags: spec_tag_result_views(self.tags@),
            moves: spec_move_views(self.moves@),
        }
    }
}

/// Decodes every tag line of `lines`, in order, exactly as
/// [`spec_tag_results`] describes.
pub fn parse_tags(lines: &Vec<String>) -> (tags: Vec<Result<Tag, TagError>>)
    ensures
        spec_tag_result_views(tags@) == spec_tag_results(spec_str_views(lines@)),
{
    let ghost all = spec_str_views(lines@);
    proof {
        assert(all.skip(0) =~= all);
    }
    let mut tags: Vec<Result<Tag, TagError>> = Vec::new();
    let mut i: usize = 0;
    while i < lines.len()
        invariant
            i <= lines.len(),
            all == spec_str_views(lines@),
            spec_tag_results(all) == spec_tag_result_views(tags@) + spec_tag_results(
                all.skip(i as int),
            ),
        decreases lines.len() - i,
    {
        proof {
            assert(all.skip(i as int).drop_first() =~= all.skip(i + 1));
            assert(all.skip(i as int)[0] == lines@[i as int]@);
        }
        let line = lines[i].as_str();
        let n = line.unicode_len();
        if n > 0 && line.get_char(0) == '[' {
            let r = Tag::try_from(line);
            proof {
                assert(spec_tag_result_views(tags@.push(r)) =~= spec_tag_result_views(
                    tags@,
                ).push(spec_tag_result_view(r)));
                assert(spec_tag_result_views(tags@).push(spec_tag_result_view(r))
                    + spec_tag_results(all.skip(i + 1)) =~= spec_tag_result_views(tags@) + (seq![
                    spec_tag_result_view(r),
                ] + spec_tag_results(all.skip(i + 1))));
            }
            tags.push(r);
        }
        i = i + 1;
    }
    proof {
        assert(all.skip(lines@.len() as int) =~= Seq::<Seq<char>>::empty());
        assert(spec_tag_result_views(tags@) + spec_tag_results(all.skip(lines@.len() as int))
            =~= spec_tag_result_views(tags@));
    }
    tags
}

impl Pgn {
    /// Parses a whole game from its raw lines: the tag pass and the
    /// movetext pass run over the same lines, and neither can abort the
    /// other.
    pub fn from_lines(lines: &Vec<String>) -> (p: Pgn)
        ensures
            p@ == spec_parse_game(spec_str_views(lines@)),
    {
        let tags = parse_tags(lines);
        let moves = parse_moves(lines);
        Pgn { tags, moves }
    }

    /// The ordered tag results, one per tag line of the source.
    pub fn tags(&self) -> (r: &[Result<Tag, TagError>])
        ensures
            spec_tag_result_views(r@) == self@.tags,
    {
        self.tags.as_slice()
    }

    /// The ordered half-moves of the movetext.
    pub fn moves(&self) -> (r: &[Move])
        ensures
            spec_move_views(r@) == self@.moves,
    {
        self.moves.as_slice()
    }
}

} // verus!
