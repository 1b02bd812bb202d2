use torrent_title_parser::handler_wrapper::{
    Action, Handler, HandlerContext, HandlerResult, RegexHandlerOptions, Target, TextTransform,
};
use torrent_title_parser::handlers::{add_default_handlers, pattern_rule};
use torrent_title_parser::ledger::MatchLedger;
use torrent_title_parser::{
    parse_title, Codec, FlagField, ListField, NumbersField, ParsedTitle, Parser, TextField,
};

fn context(title: &str) -> HandlerContext {
    HandlerContext { title: title.to_string(), result: ParsedTitle::new(), matched: MatchLedger::new() }
}

fn found(raw: &str, at: usize, remove: bool, skip_from_title: bool) -> Option<HandlerResult> {
    Some(HandlerResult { raw_match: raw.to_string(), match_index: at, remove, skip_from_title })
}

fn advance(title: &str, end: usize, result: Option<HandlerResult>) -> (String, usize) {
    let mut ctx = context(title);
    let end = Parser::advance(&mut ctx, end, result);
    (ctx.title, end)
}

#[test]
fn no_descriptor_no_change() {
    assert_eq!(advance("Show 720p", 9, None), ("Show 720p".to_string(), 9));
}

#[test]
fn a_match_pulls_the_end_of_the_title_to_its_start() {
    assert_eq!(advance("Show 720p x", 11, found("720p", 5, false, false)), ("Show 720p x".to_string(), 5));
    assert_eq!(advance("Show 720p x", 5, found("x", 10, false, false)), ("Show 720p x".to_string(), 5));
    assert_eq!(advance("Show 720p x", 5, found("720p", 5, false, false)), ("Show 720p x".to_string(), 5));
    assert_eq!(advance("Show 720p x", 11, found("720p", 5, false, true)), ("Show 720p x".to_string(), 11));
}

#[test]
fn a_match_in_the_first_two_bytes_does_not_pull() {
    assert_eq!(advance("1080p Show", 10, found("1080p", 0, false, false)), ("1080p Show".to_string(), 10));
    assert_eq!(advance("a 1080p Show", 12, found(" 1080p", 1, false, false)), ("a 1080p Show".to_string(), 12));
    assert_eq!(advance("ab 1080p Show", 13, found(" 1080p", 2, false, false)), ("ab 1080p Show".to_string(), 2));
}

#[test]
fn a_removal_cuts_the_match_out() {
    assert_eq!(advance("Show 720p x", 11, found("720p", 5, true, false)), ("Show  x".to_string(), 5));
    assert_eq!(advance("Show é x", 9, found("é", 5, true, false)), ("Show  x".to_string(), 5));
    assert_eq!(advance("1080p Show", 10, found("1080p", 0, true, false)), (" Show".to_string(), 10));
}

#[test]
fn a_removal_before_the_end_that_does_not_count_shifts_the_end() {
    assert_eq!(advance("[Grp] Show 720p", 11, found("[Grp]", 0, true, true)), (" Show 720p".to_string(), 6));
    assert_eq!(advance("Show [x] 720p", 5, found("[x]", 5, true, true)), ("Show  720p".to_string(), 5));
    assert_eq!(advance("Show [x] 720p", 7, found("[x]", 5, true, true)), ("Show  720p".to_string(), 5));
    assert_eq!(advance("Show [x] 720p", 8, found("[x]", 5, true, true)), ("Show  720p".to_string(), 5));
    assert_eq!(advance("Show [x] 720p", 9, found("[x]", 5, true, true)), ("Show  720p".to_string(), 6));
    assert_eq!(advance("Show [x] 720p", 4, found("[x]", 5, true, true)), ("Show  720p".to_string(), 4));
}

#[test]
fn a_removal_that_does_not_fit_the_title_is_left_out() {
    assert_eq!(advance("Show", 4, found("720p", 2, true, false)), ("Show".to_string(), 2));
    assert_eq!(advance("Show", 4, found("720p", 9, true, true)), ("Show".to_string(), 4));
    assert_eq!(advance("aé b", 5, found("x", 2, true, true)), ("aé b".to_string(), 5));
    assert_eq!(advance("Show", 4, found("x", usize::MAX, true, true)), ("Show".to_string(), 4));
    assert_eq!(advance("", 0, found("", 0, true, true)), ("".to_string(), 0));
}

#[test]
fn the_end_of_the_title_never_moves_right() {
    let titles = ["", "ab", "Show 720p x", "aé b ★ c"];
    for title in titles {
        for end in 0..=title.len() + 1 {
            for at in 0..=title.len() + 1 {
                for raw in ["", "x", "é", "720p"] {
                    for flags in 0..4 {
                        let (_, after) = advance(title, end, found(raw, at, flags & 1 == 1, flags & 2 == 2));
                        assert!(after <= end);
                    }
                }
            }
        }
    }
}

#[test]
fn a_parser_without_handlers_only_cleans() {
    let parser = Parser::new();
    assert_eq!(parser.parse("The_Show").unwrap().title(), "The Show");
    assert_eq!(parser.parse("The.Show.1080p").unwrap().title(), "The Show 1080p");
    assert_eq!(parser.parse("").unwrap(), ParsedTitle::default());
    let mut expected = ParsedTitle::new();
    expected.set_title("x".to_string());
    assert_eq!(parser.parse("x").unwrap(), expected);
}

#[test]
fn handlers_run_in_the_order_in_which_they_were_added() {
    let value = |v: &str| Target::Text(TextField::Quality, TextTransform::Value(v.to_string()));
    let mut parser = Parser::new();
    parser.add_handler(pattern_rule("quality", value("first"), "blu", true, RegexHandlerOptions::default().removing()).unwrap());
    parser.add_handler(pattern_rule("quality", value("second"), "ray", true, RegexHandlerOptions::default()).unwrap());
    parser.add_handler(pattern_rule("trash", Target::Flag(FlagField::Trash), "ray", true, RegexHandlerOptions::default().removing()).unwrap());
    parser.add_handler(Handler::new("group", Action::DropEmptyGroup));
    assert_eq!(parser.handlers.len(), 4);
    let result = parser.parse("A Show BluRay x").unwrap();
    assert_eq!(result.text(TextField::Quality).as_deref(), Some("first"));
    assert!(result.flag(FlagField::Trash));
    assert_eq!(result.title(), "A Show");
    let result = parser.parse("A Ray Show").unwrap();
    assert_eq!(result.text(TextField::Quality).as_deref(), Some("second"));
    assert_eq!(result.title(), "A");
}

#[test]
fn the_default_table_loads() {
    let mut parser = Parser::new();
    assert!(add_default_handlers(&mut parser).is_ok());
    assert_eq!(parser.handlers.len(), 393);
    assert_eq!(parser.handlers[0].get_name(), "adult");
    assert_eq!(parser.handlers[392].get_name(), "title");
    assert!(add_default_handlers(&mut parser).is_ok());
    assert_eq!(parser.handlers.len(), 786);
}

#[test]
fn titles_are_cleaned() {
    let parser = Parser::new();
    let cases = [
        ("The.Show.", "The Show"),
        ("The Show -", "The Show"),
        ("  The   Show  ", "The Show"),
        ("The_Show", "The Show"),
        ("The Show [movie]", "The Show"),
        ("The Show (Movie)", "The Show (Movie)"),
        ("- The Show", "The Show"),
        ("[Banner] The Show", "The Show"),
        ("The Show [Banner]", "The Show"),
        ("\u{2605}Site\u{2605}The Show", "The Show"),
        ("The Show ( )", "The Show"),
        ("The Show [-]", "The Show"),
        ("The Show (2019", "The Show 2019"),
        ("The Show} x", "The Show x"),
        ("The Show mp3", "The Show"),
        ("The Showmp3", "The Showmp3"),
        ("The.Show v1.0", "The.Show v1.0"),
        ("\u{421}\u{435}\u{440}\u{438}\u{430}\u{43b} / The Show", "The Show"),
        ("The Show (\u{430}\u{43a}\u{442}\u{451}\u{440})", "The Show"),
        ("#1 Show", "#1 Show"),
        ("", ""),
        ("...", ""),
    ];
    for (input, expected) in cases {
        assert_eq!(parser.clean_title(input), expected, "clean-up of {:?}", input);
    }
}

#[test]
fn cleaning_a_clean_title_changes_nothing() {
    let parser = Parser::new();
    for input in ["The.Show.", "[Banner] The Show", "The Show (2019", "  a   b  ", "The Simpsons", "Kill Bill: Vol. 1", "Oh My Goddess!", ""] {
        let once = parser.clean_title(input);
        assert_eq!(parser.clean_title(&once), once, "second clean-up of {:?}", input);
    }
}

#[test]
fn a_complete_release_name() {
    let result = parse_title("The.Simpsons.S01E01.1080p.BluRay.x265.HEVC.10bit.AAC.5.1.Tigole").unwrap();
    assert_eq!(result.title(), "The Simpsons");
    assert_eq!(result.text(TextField::Resolution).as_deref(), Some("1080p"));
    assert_eq!(result.text(TextField::Quality).as_deref(), Some("bluray"));
    assert_eq!(result.codec(), Some(Codec::Hevc));
    assert_eq!(result.codec().map(|c| c.as_str()), Some("hevc"));
    assert_eq!(result.text(TextField::BitDepth).as_deref(), Some("10bit"));
    assert!(result.list(ListField::Audio).contains(&"aac".to_string()));
    assert!(result.list(ListField::Channels).contains(&"5.1".to_string()));
    assert_eq!(*result.numbers(NumbersField::Seasons), vec![1]);
    assert_eq!(*result.numbers(NumbersField::Episodes), vec![1]);
    assert_eq!(result.text(TextField::Group).as_deref(), Some("Tigole"));
    assert_eq!(result.year(), None);
}

#[test]
fn the_empty_name_sets_nothing() {
    assert_eq!(parse_title("").unwrap(), ParsedTitle::default());
    assert_eq!(parse_title("").unwrap().title(), "");
}

#[test]
fn a_name_of_nothing_but_metadata_has_no_title() {
    let result = parse_title("1080p.BluRay.x264").unwrap();
    assert_eq!(result.title(), "");
    assert_eq!(result.text(TextField::Resolution).as_deref(), Some("1080p"));
    assert_eq!(result.codec(), Some(Codec::Avc));
}

#[test]
fn separators_are_normalised() {
    let result = parse_title("The...Show....S01E01").unwrap();
    assert_eq!(result.title(), "The Show");
    assert_eq!(*result.numbers(NumbersField::Seasons), vec![1]);
    assert_eq!(*result.numbers(NumbersField::Episodes), vec![1]);
    assert_eq!(parse_title("The_Show_S01E01").unwrap().title(), "The Show");
    assert_eq!(parse_title("The___Show").unwrap().title(), "The Show");
}

#[test]
fn an_episode_range_is_expanded() {
    let result = parse_title("Show.S01E01E02").unwrap();
    assert_eq!(*result.numbers(NumbersField::Seasons), vec![1]);
    assert_eq!(*result.numbers(NumbersField::Episodes), vec![1, 2]);
}

#[test]
fn years_dates_and_networks_are_read() {
    let result = parse_title("Jimmy Kimmel 2017 05 03 720p HDTV DD5 1 MPEG2-CTL").unwrap();
    assert_eq!(result.text(TextField::Date).as_deref(), Some("2017-05-03"));
    assert_eq!(result.title(), "Jimmy Kimmel");
    let result = parse_title("Guardians of the Galaxy Vol. 2 (2017) 720p HDTC x264 MKVTV").unwrap();
    assert_eq!(result.year(), Some(2017));
    let result = parse_title("The Walking Dead S10E01-E02 PROPER 1080p AMZN WEB-DL DDP5.1 x264-NTb").unwrap();
    assert_eq!(result.text(TextField::Network).as_deref(), Some("Amazon"));
    assert!(result.flag(FlagField::Proper));
    assert_eq!(result.text(TextField::Group).as_deref(), Some("NTb"));
}

#[test]
fn names_in_other_scripts_are_parsed() {
    for name in [
        "\u{421}\u{435}\u{440}\u{438}\u{430}\u{43b}.S01E02.1080p",
        "\u{3010}\u{5b57}\u{5e55}\u{3011} \u{8fdb}\u{51fb}\u{7684}\u{5de8}\u{4eba} - 07 [720p]",
        "\u{e9}\u{e9}\u{e9}\u{e9}",
        "\u{1F600}.2019.x264-\u{1F600}",
        "[\u{e9}] x [\u{e9}] 1080p \u{e9}",
        "\u{c0}\u{ea}",
    ] {
        assert!(parse_title(name).is_ok(), "{:?}", name);
    }
    let result = parse_title("\u{421}\u{435}\u{440}\u{438}\u{430}\u{43b}.S01E02.1080p").unwrap();
    assert_eq!(*result.numbers(NumbersField::Episodes), vec![2]);
    assert_eq!(result.text(TextField::Resolution).as_deref(), Some("1080p"));
}
