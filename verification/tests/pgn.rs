use pgn_parser::{Date, Move, Pgn, Tag, TagError, Time};

fn lines(ls: &[&str]) -> Vec<String> {
    ls.iter().map(|l| l.to_string()).collect()
}

#[test]
fn should_properly_assing_move_to_move() {
    let first_chess_move = ("1", "e4");
    let second_chess_move = ("2", "c6");
    let third_chess_move = ("3", "Nf3");
    let fourth_chess_move = ("4", "exd5");

    assert_eq!(Move::from(first_chess_move), Move::White("e4".to_string()));
    assert_eq!(Move::from(second_chess_move), Move::Black("c6".to_string()));
    assert_eq!(Move::from(third_chess_move), Move::White("Nf3".to_string()));
    assert_eq!(Move::from(fourth_chess_move), Move::Black("exd5".to_string()));
}

#[test]
fn decodes_every_text_key() {
    assert_eq!(
        Tag::try_from("[Event \"Test match\"]"),
        Ok(Tag::Event("Test match".to_string()))
    );
    assert_eq!(
        Tag::try_from("[Site \"lichess.org\"]"),
        Ok(Tag::Site("lichess.org".to_string()))
    );
    assert_eq!(Tag::try_from("[Round \"3\"]"), Ok(Tag::Round("3".to_string())));
    assert_eq!(
        Tag::try_from("[White \"MontagueT\"]"),
        Ok(Tag::White("MontagueT".to_string()))
    );
    assert_eq!(
        Tag::try_from("[Black \"sobka\"]"),
        Ok(Tag::Black("sobka".to_string()))
    );
    assert_eq!(
        Tag::try_from("[Result \"1-0\"]"),
        Ok(Tag::Result("1-0".to_string()))
    );
    assert_eq!(Tag::try_from("[ECO \"B10\"]"), Ok(Tag::Eco("B10".to_string())));
    assert_eq!(
        Tag::try_from("[Annotator \"lichess\"]"),
        Ok(Tag::Annotator("lichess".to_string()))
    );
    assert_eq!(
        Tag::try_from("[Variant \"Standard\"]"),
        Ok(Tag::Variant("Standard".to_string()))
    );
    assert_eq!(
        Tag::try_from("[TimeControl \"300+0\"]"),
        Ok(Tag::TimeControl("300+0".to_string()))
    );
    assert_eq!(
        Tag::try_from("[Opening \"Caro-Kann Defense\"]"),
        Ok(Tag::Opening("Caro-Kann Defense".to_string()))
    );
    assert_eq!(
        Tag::try_from("[Termination \"Normal\"]"),
        Ok(Tag::Termination("Normal".to_string()))
    );
}

#[test]
fn decodes_date_and_time_keys() {
    assert_eq!(
        Tag::try_from("[Date \"2022.05.14\"]"),
        Ok(Tag::Date(Date { year: 2022, month: 5, day: 14 }))
    );
    assert_eq!(
        Tag::try_from("[UTCDate \"2022.05.14\"]"),
        Ok(Tag::UTCDate(Date { year: 2022, month: 5, day: 14 }))
    );
    assert_eq!(
        Tag::try_from("[EndTime \"17:01:29 PDT\"]"),
        Ok(Tag::EndTime(Time { hour: 17, minute: 1, second: 29 }))
    );
    assert_eq!(
        Tag::try_from("[UTCTime \"14:00:07\"]"),
        Ok(Tag::UTCTime(Time { hour: 14, minute: 0, second: 7 }))
    );
}

#[test]
fn decodes_rating_keys() {
    assert_eq!(Tag::try_from("[WhiteElo \"2700\"]"), Ok(Tag::WhiteElo(2700)));
    assert_eq!(Tag::try_from("[BlackElo \"1350\"]"), Ok(Tag::BlackElo(1350)));
    assert_eq!(Tag::try_from("[WhiteElo \"0\"]"), Ok(Tag::WhiteElo(0)));
    assert_eq!(Tag::try_from("[WhiteElo \"65535\"]"), Ok(Tag::WhiteElo(65535)));
    assert_eq!(Tag::try_from("[WhiteElo \"+5\"]"), Ok(Tag::WhiteElo(5)));
    assert_eq!(
        Tag::try_from("[WhiteRatingDiff \"+8\"]"),
        Ok(Tag::WhiteRatingDiff(8))
    );
    assert_eq!(
        Tag::try_from("[BlackRatingDiff \"-12\"]"),
        Ok(Tag::BlackRatingDiff(-12))
    );
    assert_eq!(
        Tag::try_from("[WhiteRatingDiff \"32767\"]"),
        Ok(Tag::WhiteRatingDiff(32767))
    );
    assert_eq!(
        Tag::try_from("[BlackRatingDiff \"-32768\"]"),
        Ok(Tag::BlackRatingDiff(-32768))
    );
}

#[test]
fn reports_missing_brackets() {
    assert_eq!(
        Tag::try_from("Event \"Test\"]"),
        Err(TagError::NoOpeningSquareBracket)
    );
    assert_eq!(Tag::try_from(""), Err(TagError::NoOpeningSquareBracket));
    assert_eq!(
        Tag::try_from("1. e4 c6"),
        Err(TagError::NoOpeningSquareBracket)
    );
    assert_eq!(
        Tag::try_from("[Event \"Test\""),
        Err(TagError::NoClosingSquareBracket)
    );
    assert_eq!(Tag::try_from("["), Err(TagError::NoClosingSquareBracket));
}

#[test]
fn reports_missing_separator() {
    assert_eq!(Tag::try_from("[Event]"), Err(TagError::NoKeyValueSeparator));
    assert_eq!(Tag::try_from("[]"), Err(TagError::NoKeyValueSeparator));
    assert_eq!(Tag::try_from("[Date]"), Err(TagError::NoKeyValueSeparator));
    assert_eq!(Tag::try_from("[Event ]"), Ok(Tag::Event("".to_string())));
    assert_eq!(Tag::try_from("[Event \"\"]"), Ok(Tag::Event("".to_string())));
}

#[test]
fn reports_unknown_keys() {
    assert_eq!(
        Tag::try_from("[Foo \"bar\"]"),
        Err(TagError::UnknownTag("Foo".to_string(), "bar".to_string()))
    );
    assert_eq!(
        Tag::try_from("[eco \"B10\"]"),
        Err(TagError::UnknownTag("eco".to_string(), "B10".to_string()))
    );
}

#[test]
fn reports_invalid_values() {
    assert_eq!(
        Tag::try_from("[Date \"yesterday\"]"),
        Err(TagError::InvalidValue("Date".to_string(), "yesterday".to_string()))
    );
    assert_eq!(
        Tag::try_from("[Date \"2022.13.01\"]"),
        Err(TagError::InvalidValue("Date".to_string(), "2022.13.01".to_string()))
    );
    assert_eq!(
        Tag::try_from("[UTCTime \"25:00:00\"]"),
        Err(TagError::InvalidValue("UTCTime".to_string(), "25:00:00".to_string()))
    );
    assert_eq!(
        Tag::try_from("[WhiteElo \"65536\"]"),
        Err(TagError::InvalidValue("WhiteElo".to_string(), "65536".to_string()))
    );
    assert_eq!(
        Tag::try_from("[WhiteElo \"12a\"]"),
        Err(TagError::InvalidValue("WhiteElo".to_string(), "12a".to_string()))
    );
    assert_eq!(
        Tag::try_from("[WhiteElo \"\"]"),
        Err(TagError::InvalidValue("WhiteElo".to_string(), "".to_string()))
    );
    assert_eq!(
        Tag::try_from("[WhiteRatingDiff \"32768\"]"),
        Err(TagError::InvalidValue(
            "WhiteRatingDiff".to_string(),
            "32768".to_string()
        ))
    );
    assert_eq!(
        Tag::try_from("[BlackRatingDiff \"-32769\"]"),
        Err(TagError::InvalidValue(
            "BlackRatingDiff".to_string(),
            "-32769".to_string()
        ))
    );
}

#[test]
fn round_trips_a_small_game() {
    let input = lines(&[
        "[Event \"Test\"]",
        "[White \"A\"]",
        "[Black \"B\"]",
        "",
        "1. e4 c6 2. Nf3 d5",
    ]);
    let pgn = Pgn::from_lines(&input);
    let tags = pgn.tags();
    assert_eq!(tags.len(), 3);
    assert_eq!(tags[0], Ok(Tag::Event("Test".to_string())));
    assert_eq!(tags[1], Ok(Tag::White("A".to_string())));
    assert_eq!(tags[2], Ok(Tag::Black("B".to_string())));
    let moves = pgn.moves();
    assert_eq!(
        moves,
        &[
            Move::White("e4".to_string()),
            Move::Black("c6".to_string()),
            Move::White("Nf3".to_string()),
            Move::Black("d5".to_string()),
        ]
    );
}

#[test]
fn dangling_marker_produces_no_move() {
    let pgn = Pgn::from_lines(&lines(&["1. e4 c6 2."]));
    assert_eq!(
        pgn.moves(),
        &[Move::White("e4".to_string()), Move::Black("c6".to_string())]
    );
    let pgn2 = Pgn::from_lines(&lines(&["1. e4 c6 2. "]));
    assert_eq!(
        pgn2.moves(),
        &[Move::White("e4".to_string()), Move::Black("c6".to_string())]
    );
    let pgn3 = Pgn::from_lines(&lines(&["1."]));
    assert_eq!(pgn3.moves(), &[] as &[Move]);
}

#[test]
fn parsing_twice_yields_equal_records() {
    let input = lines(&[
        "[Event \"Test\"]",
        "[Nonsense \"x\"]",
        "",
        "1. e4 c6 2. Nf3 d5",
    ]);
    let first = Pgn::from_lines(&input);
    let second = Pgn::from_lines(&input);
    assert_eq!(first, second);
}

#[test]
fn keeps_annotation_symbols_verbatim() {
    let pgn = Pgn::from_lines(&lines(&["1. e4!? c6# 2. Nf3+ d5??"]));
    assert_eq!(
        pgn.moves(),
        &[
            Move::White("e4!?".to_string()),
            Move::Black("c6#".to_string()),
            Move::White("Nf3+".to_string()),
            Move::Black("d5??".to_string()),
        ]
    );
}

#[test]
fn merges_movetext_lines() {
    let pgn = Pgn::from_lines(&lines(&["1. e4", "c6 2. d4", "d5"]));
    assert_eq!(
        pgn.moves(),
        &[
            Move::White("e4".to_string()),
            Move::Black("c6".to_string()),
            Move::White("d4".to_string()),
            Move::Black("d5".to_string()),
        ]
    );
}

#[test]
fn discards_text_before_first_marker() {
    let pgn = Pgn::from_lines(&lines(&["x y 1. e4"]));
    assert_eq!(pgn.moves(), &[Move::White("e4".to_string())]);
    let none = Pgn::from_lines(&lines(&["e4 c6"]));
    assert_eq!(none.moves(), &[] as &[Move]);
}

#[test]
fn tag_errors_do_not_block_movetext() {
    let input = lines(&["[Broken \"x\"]", "[White", "1. e4 c6"]);
    let pgn = Pgn::from_lines(&input);
    assert_eq!(pgn.tags().len(), 2);
    assert_eq!(
        pgn.tags()[0],
        Err(TagError::UnknownTag("Broken".to_string(), "x".to_string()))
    );
    assert_eq!(pgn.tags()[1], Err(TagError::NoClosingSquareBracket));
    assert_eq!(
        pgn.moves(),
        &[Move::White("e4".to_string()), Move::Black("c6".to_string())]
    );
}

#[test]
fn empty_input_parses_to_empty_record() {
    let pgn = Pgn::from_lines(&lines(&[]));
    assert_eq!(pgn.tags().len(), 0);
    assert_eq!(pgn.moves(), &[] as &[Move]);
}
