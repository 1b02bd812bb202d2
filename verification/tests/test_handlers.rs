use torrent_title_parser::handler_wrapper::{
    accept, accept_volume, is_bracketed, Action, Handler, HandlerContext, HandlerResult,
    NumbersTransform, PropertyIsSet, RegexHandlerOptions, Target, TextTransform,
};
use torrent_title_parser::handlers::{
    add_handlers, compile, default_recipes, pattern_rule, Plan, Recipe,
};
use torrent_title_parser::ledger::{Match, MatchLedger};
use torrent_title_parser::matching::{GroupMatch, StringMatch};
use torrent_title_parser::{
    Codec, FlagField, Language, ListField, NumbersField, ParsedTitle, Parser, ParserError,
    TextField,
};

fn context(title: &str) -> HandlerContext {
    HandlerContext { title: title.to_string(), result: ParsedTitle::new(), matched: MatchLedger::new() }
}

fn rule(name: &str, target: Target, pattern: &str, options: RegexHandlerOptions) -> Handler {
    pattern_rule(name, target, pattern, true, options).unwrap()
}

fn descriptor(r: &Option<HandlerResult>) -> Option<(&str, usize, bool, bool)> {
    r.as_ref().map(|d| (d.raw_match.as_str(), d.match_index, d.remove, d.skip_from_title))
}

fn record(ledger: &mut MatchLedger, name: &str, raw: &str, at: usize) {
    ledger.insert(name, Match { raw_match: raw.to_string(), match_index: at });
}

#[test]
fn default_options_gate_and_nothing_else() {
    let o = RegexHandlerOptions::default();
    assert!(o.skip_if_already_found);
    assert!(!o.skip_from_title);
    assert!(!o.skip_if_first);
    assert!(!o.remove);
    let all = o.removing().outside_title().only_first().repeatable();
    assert!(all.remove && all.skip_from_title && all.skip_if_first && !all.skip_if_already_found);
    assert!(!o.removing().skip_from_title);
}

#[test]
fn values_know_whether_they_are_set() {
    assert!(!None::<i32>.is_set());
    assert!(Some(0).is_set());
    assert!(!false.is_set());
    assert!(true.is_set());
    assert!(!Vec::<i32>::new().is_set());
    assert!(vec![0].is_set());
    assert!(!String::new().is_set());
    assert!(" ".to_string().is_set());
}

#[test]
fn a_rule_writes_records_and_describes() {
    let h = rule("resolution", Target::Text(TextField::Resolution, TextTransform::Lowercase), "\\d{3,4}P", RegexHandlerOptions::default().removing());
    assert_eq!(h.get_name(), "resolution");
    let mut ctx = context("Show 1080P x");
    let r = h.call(&mut ctx);
    assert_eq!(descriptor(&r), Some(("1080P", 5, true, false)));
    assert_eq!(ctx.result.text(TextField::Resolution).as_deref(), Some("1080p"));
    assert_eq!(ctx.title, "Show 1080P x");
    let found = ctx.matched.get("resolution").unwrap();
    assert_eq!((found.raw_match.as_str(), found.match_index), ("1080P", 5));
}

#[test]
fn the_first_group_is_the_value_where_it_took_part() {
    let h = rule("seasons", Target::Numbers(NumbersField::Seasons, NumbersTransform::Single), "S(\\d+)|Season", RegexHandlerOptions::default());
    let mut ctx = context("Show S03");
    assert_eq!(descriptor(&h.call(&mut ctx)), Some(("S03", 5, false, false)));
    assert_eq!(*ctx.result.numbers(NumbersField::Seasons), vec![3]);
    let mut ctx = context("Show Season");
    assert_eq!(descriptor(&h.call(&mut ctx)), None);
    assert_eq!(*ctx.result.numbers(NumbersField::Seasons), Vec::<i32>::new());
}

#[test]
fn no_match_and_declined_transforms_change_nothing() {
    let year = rule("year", Target::Year, "y(\\w+)", RegexHandlerOptions::default().removing());
    let mut ctx = context("Show y2019 yxyz");
    assert!(year.call(&mut context("Show")).is_none());
    assert_eq!(descriptor(&year.call(&mut ctx)), Some(("y2019", 5, true, false)));
    assert_eq!(ctx.result.year(), Some(2019));
    let mut ctx = context("Show yxyz");
    assert!(year.call(&mut ctx).is_none());
    assert_eq!(ctx.result, ParsedTitle::new());
    assert!(ctx.matched.get("year").is_none());
    let flag = rule("proper", Target::Flag(FlagField::Proper), "(?=proper)", RegexHandlerOptions::default());
    let mut ctx = context("Show proper");
    assert!(flag.call(&mut ctx).is_none());
    assert!(!ctx.result.flag(FlagField::Proper));
}

#[test]
fn a_gated_rule_leaves_a_set_field_alone() {
    let first = rule("quality", Target::Text(TextField::Quality, TextTransform::Value("bluray".to_string())), "blu-?ray", RegexHandlerOptions::default());
    let second = rule("quality", Target::Text(TextField::Quality, TextTransform::Value("hdtv".to_string())), "hdtv", RegexHandlerOptions::default().removing());
    let again = rule("quality", Target::Text(TextField::Quality, TextTransform::Value("hdtv".to_string())), "hdtv", RegexHandlerOptions::default().repeatable());
    let mut ctx = context("Show BluRay HDTV");
    assert!(first.call(&mut ctx).is_some());
    assert!(second.call(&mut ctx).is_none());
    assert_eq!(ctx.result.text(TextField::Quality).as_deref(), Some("bluray"));
    assert_eq!(ctx.matched.get("quality").unwrap().match_index, 5);
    assert_eq!(descriptor(&again.call(&mut ctx)), Some(("HDTV", 12, false, false)));
    assert_eq!(ctx.result.text(TextField::Quality).as_deref(), Some("hdtv"));
    assert_eq!(ctx.matched.get("quality").unwrap().match_index, 12);
}

#[test]
fn gating_covers_every_kind_of_field() {
    let mut ctx = context("a");
    ctx.result.set_flag(FlagField::Adult, true);
    ctx.result.set_year(Some(1999));
    ctx.result.set_codec(Some(Codec::Avc));
    ctx.result.set_list(ListField::Audio, vec!["aac".to_string()]);
    ctx.result.set_numbers(NumbersField::Episodes, vec![1]);
    ctx.result.set_languages(vec![Language::French]);
    ctx.result.set_title("t".to_string());
    let before = ctx.result.clone();
    let targets = vec![
        Target::Flag(FlagField::Adult),
        Target::Year,
        Target::Codec(Codec::Hevc),
        Target::List(ListField::Audio, "dts".to_string()),
        Target::Numbers(NumbersField::Episodes, NumbersTransform::Single),
        Target::Language(Language::German),
        Target::Title,
    ];
    for target in targets {
        assert!(target.holds(&ctx.result));
        let h = pattern_rule("x", target, "a", true, RegexHandlerOptions::default()).unwrap();
        assert!(h.call(&mut ctx).is_none());
        assert_eq!(ctx.result, before);
    }
    assert!(!Target::Flag(FlagField::Trash).holds(&ctx.result));
    assert!(!Target::List(ListField::Hdr, String::new()).holds(&ctx.result));
}

#[test]
fn lists_take_each_value_once() {
    let options = RegexHandlerOptions::default().repeatable();
    let aac = rule("audio", Target::List(ListField::Audio, "aac".to_string()), "aac", options);
    let dts = rule("audio", Target::List(ListField::Audio, "dts".to_string()), "dts", options);
    let mut ctx = context("x AAC DTS aac");
    assert!(aac.call(&mut ctx).is_some());
    assert!(dts.call(&mut ctx).is_some());
    assert!(aac.call(&mut ctx).is_some());
    assert_eq!(*ctx.result.list(ListField::Audio), vec!["aac", "dts"]);
    let template = rule("channels", Target::List(ListField::Channels, "$1ch".to_string()), "(\\d)ch", options);
    assert!(template.call(&mut ctx).is_none());
    assert!(template.call(&mut context("a 6ch")).is_some());
    let french = rule("languages", Target::Language(Language::French), "french", options);
    let mut ctx = context("French");
    french.call(&mut ctx);
    french.call(&mut ctx);
    assert_eq!(*ctx.result.languages(), vec![Language::French]);
}

#[test]
fn a_match_inside_the_leading_tag_does_not_count_towards_the_title() {
    let h = rule("resolution", Target::Text(TextField::Resolution, TextTransform::Identity), "\\d+p", RegexHandlerOptions::default());
    assert_eq!(descriptor(&h.call(&mut context("[Grp 720p] Show 720p"))), Some(("720p", 5, false, true)));
    assert_eq!(descriptor(&h.call(&mut context("[Grp] Show 720p"))), Some(("720p", 11, false, false)));
    assert_eq!(descriptor(&h.call(&mut context("Show [720p]"))), Some(("720p", 6, false, false)));
    let outside = RegexHandlerOptions::default().outside_title();
    let h = rule("resolution", Target::Text(TextField::Resolution, TextTransform::Identity), "\\d+p", outside);
    assert_eq!(descriptor(&h.call(&mut context("Show 720p"))), Some(("720p", 5, false, true)));
}

#[test]
fn only_first_needs_the_match_ahead_of_every_other_name() {
    let only_first = RegexHandlerOptions::default().only_first().repeatable();
    let h = rule("languages", Target::Language(Language::German), "german", only_first);
    let mut ctx = context("Show German 1080p");
    assert!(h.call(&mut ctx).is_some());
    let mut ctx = context("Show German 1080p");
    record(&mut ctx.matched, "resolution", "1080p", 12);
    assert!(h.call(&mut ctx).is_some());
    let mut ctx = context("Show German 1080p");
    record(&mut ctx.matched, "languages", "Show", 0);
    assert!(h.call(&mut ctx).is_some());
    for at in [0, 4, 5] {
        let mut ctx = context("Show German 1080p");
        record(&mut ctx.matched, "resolution", "1080p", 12);
        record(&mut ctx.matched, "site", "Show", at);
        assert!(h.call(&mut ctx).is_none());
        assert_eq!(*ctx.result.languages(), Vec::<Language>::new());
        assert!(ctx.matched.get("languages").is_none());
    }
    let mut ctx = context("Show German 1080p");
    record(&mut ctx.matched, "site", "Show", 6);
    assert!(h.call(&mut ctx).is_some());
}

#[test]
fn matches_that_do_not_fit_the_title_are_ignored() {
    let options = RegexHandlerOptions::default();
    let target = Target::Text(TextField::Group, TextTransform::Identity);
    let whole = |start, end| Some(StringMatch { range: GroupMatch { start, end }, first_group: None });
    let mut ctx = context("aé b");
    assert!(accept("group", &target, &options, whole(0, 9), None, &mut ctx).is_none());
    assert!(accept("group", &target, &options, whole(2, 3), None, &mut ctx).is_none());
    assert!(accept("group", &target, &options, whole(3, 1), None, &mut ctx).is_none());
    assert!(accept("group", &target, &options, None, None, &mut ctx).is_none());
    assert_eq!(ctx.result, ParsedTitle::new());
    let odd_group = Some(StringMatch { range: GroupMatch { start: 1, end: 3 }, first_group: Some(GroupMatch { start: 2, end: 3 }) });
    assert_eq!(descriptor(&accept("group", &target, &options, odd_group, Some(GroupMatch { start: 0, end: 2 }), &mut ctx)), Some(("é", 1, false, false)));
    assert_eq!(ctx.result.text(TextField::Group).as_deref(), Some("é"));
}

#[test]
fn bit_depth_and_written_codec_are_packed() {
    let mut ctx = context("x");
    ctx.result.set_text(TextField::BitDepth, Some("10- bit".to_string()));
    ctx.result.set_text(TextField::CodecTag, Some("h.2 6-4".to_string()));
    assert!(Handler::new("bit_depth", Action::NormalizeBitDepth).call(&mut ctx).is_none());
    assert!(Handler::new_old("codec".to_string(), Action::NormalizeCodecTag).call(&mut ctx).is_none());
    assert_eq!(ctx.result.text(TextField::BitDepth).as_deref(), Some("10bit"));
    assert_eq!(ctx.result.text(TextField::CodecTag).as_deref(), Some("h264"));
    let mut ctx = context("x");
    Handler::new("bit_depth", Action::NormalizeBitDepth).call(&mut ctx);
    Handler::new("codec", Action::NormalizeCodecTag).call(&mut ctx);
    assert_eq!(ctx.result, ParsedTitle::new());
}

fn volume_handler() -> Handler {
    Handler::new("volumes", Action::Volume(compile("\\bvol(?:ume)?[. -]*(\\d{1,2})", true).unwrap()))
}

#[test]
fn volumes_are_sought_from_the_year_on() {
    let h = volume_handler();
    let mut ctx = context("Show Vol. 7 extra");
    assert_eq!(descriptor(&h.call(&mut ctx)), Some(("Vol. 7", 5, true, false)));
    assert_eq!(*ctx.result.numbers(NumbersField::Volumes), vec![7]);
    assert_eq!(ctx.matched.get("volumes").unwrap().match_index, 5);
    let mut ctx = context("Show Vol. 7 (2017) vol 3");
    record(&mut ctx.matched, "year", "2017", 12);
    assert_eq!(descriptor(&h.call(&mut ctx)), Some(("vol 3", 19, true, false)));
    assert_eq!(*ctx.result.numbers(NumbersField::Volumes), vec![3]);
    assert_eq!(ctx.matched.get("volumes").unwrap().match_index, 19);
    let mut ctx = context("Show Vol. 7 (2017)");
    record(&mut ctx.matched, "year", "2017", 13);
    assert!(h.call(&mut ctx).is_none());
    assert_eq!(*ctx.result.numbers(NumbersField::Volumes), Vec::<i32>::new());
}

#[test]
fn a_stale_year_offset_is_pulled_back_into_the_title() {
    let h = volume_handler();
    for at in [4, 5, 400, usize::MAX] {
        let mut ctx = context("é vol 2");
        record(&mut ctx.matched, "year", "1999", at);
        assert!(h.call(&mut ctx).is_none());
    }
    let mut ctx = context("é vol 2");
    record(&mut ctx.matched, "year", "1999", 1);
    assert_eq!(descriptor(&h.call(&mut ctx)), Some(("vol 2", 3, true, false)));
    let mut ctx = context("");
    assert!(h.call(&mut ctx).is_none());
    let m = Some(StringMatch { range: GroupMatch { start: 0, end: 4 }, first_group: Some(GroupMatch { start: 3, end: 4 }) });
    let mut ctx = context("ab vol1");
    assert_eq!(descriptor(&accept_volume(m, 3, &mut ctx)), Some(("vol1", 3, true, false)));
    let mut ctx = context("ab vol1");
    assert!(accept_volume(Some(StringMatch { range: GroupMatch { start: 0, end: 4 }, first_group: None }), 3, &mut ctx).is_none());
}

fn episode_handler() -> Handler {
    let strict = compile("(?<!movie\\W*|film\\W*|^)(?:[ .]+-[ .]+|[([][ .]*)(\\d{1,4})(?:a|b|v\\d|\\.\\d)?(?:\\W|$)(?!movie|film|\\d+)", true).unwrap();
    let loose = compile("^(?:[\\[\\(-][ .]?)?(\\d{1,4})(?:a|b|v\\d)?(?:\\W|$)(?!movie|film)", true).unwrap();
    Handler::new("episodes", Action::EpisodeFallback(strict, loose))
}

#[test]
fn the_episode_fallback_searches_between_the_recorded_matches() {
    let h = episode_handler();
    let mut ctx = context("Show - 07 [1080p]");
    assert_eq!(descriptor(&h.call(&mut ctx)), Some((" - 07 ", 4, false, false)));
    assert_eq!(*ctx.result.numbers(NumbersField::Episodes), vec![7]);
    assert!(ctx.matched.get("episodes").is_none());
    let mut ctx = context("Show 2019 12 720p - 05 ");
    record(&mut ctx.matched, "year", "2019", 5);
    record(&mut ctx.matched, "resolution", "720p", 13);
    assert_eq!(descriptor(&h.call(&mut ctx)), Some(("2019 ", 5, false, false)));
    assert_eq!(*ctx.result.numbers(NumbersField::Episodes), vec![2019]);
    let mut ctx = context("Show x 720p - 05 ");
    record(&mut ctx.matched, "resolution", "720p", 7);
    assert!(h.call(&mut ctx).is_none());
    let mut ctx = context("Show 2019 12 720p");
    record(&mut ctx.matched, "seasons", "x", 10);
    record(&mut ctx.matched, "year", "2019", 12);
    record(&mut ctx.matched, "audio", "x", 13);
    record(&mut ctx.matched, "codec", "x", 14);
    assert_eq!(descriptor(&h.call(&mut ctx)), Some(("12 ", 10, false, false)));
    assert_eq!(*ctx.result.numbers(NumbersField::Episodes), vec![12]);
}

#[test]
fn the_episode_fallback_keeps_found_episodes_and_clamps_its_bounds() {
    let h = episode_handler();
    let mut ctx = context("Show - 07 ");
    ctx.result.set_numbers(NumbersField::Episodes, vec![3]);
    assert!(h.call(&mut ctx).is_none());
    assert_eq!(*ctx.result.numbers(NumbersField::Episodes), vec![3]);
    let mut ctx = context("é - 07 ");
    record(&mut ctx.matched, "year", "x", 900);
    record(&mut ctx.matched, "quality", "x", 800);
    assert_eq!(descriptor(&h.call(&mut ctx)), Some((" - 07 ", 2, false, false)));
    let mut ctx = context("é - 07 ");
    record(&mut ctx.matched, "seasons", "x", 5);
    record(&mut ctx.matched, "resolution", "x", 1);
    assert!(h.call(&mut ctx).is_none());
    assert!(h.call(&mut context("")).is_none());
}

#[test]
fn portuguese_is_inferred_from_the_wording() {
    let h = Handler::new("languages", Action::InferPortuguese(compile("capitulo|ao", true).unwrap(), compile("dublado", true).unwrap()));
    let mut ctx = context("Show Dublado 720p");
    assert!(h.call(&mut ctx).is_none());
    assert_eq!(*ctx.result.languages(), vec![Language::Portuguese]);
    let mut ctx = context("Show 720p");
    record(&mut ctx.matched, "episodes", "Capitulo 3", 5);
    ctx.result.set_languages(vec![Language::English]);
    h.call(&mut ctx);
    assert_eq!(*ctx.result.languages(), vec![Language::English, Language::Portuguese]);
    for spoken in [Language::Spanish, Language::Portuguese] {
        let mut ctx = context("Show Dublado");
        ctx.result.set_languages(vec![spoken]);
        h.call(&mut ctx);
        assert_eq!(*ctx.result.languages(), vec![spoken]);
    }
    let mut ctx = context("Show 720p");
    record(&mut ctx.matched, "episodes", "E03", 5);
    h.call(&mut ctx);
    assert_eq!(*ctx.result.languages(), Vec::<Language>::new());
}

#[test]
fn groups_that_overlap_or_are_empty_are_forgotten() {
    let overlap = Handler::new("group", Action::DropOverlappingGroup);
    let empty = Handler::new("group", Action::DropEmptyGroup);
    let grouped = |raw: &str, at: usize| {
        let mut ctx = context("x");
        ctx.result.set_text(TextField::Group, Some("Grp".to_string()));
        record(&mut ctx.matched, "group", raw, at);
        ctx
    };
    let mut ctx = grouped("[Grp]", 0);
    record(&mut ctx.matched, "resolution", "720p", 5);
    overlap.call(&mut ctx);
    assert_eq!(ctx.result.text(TextField::Group).as_deref(), Some("Grp"));
    let mut ctx = grouped("[Grp]", 0);
    record(&mut ctx.matched, "resolution", "720p", 4);
    overlap.call(&mut ctx);
    assert_eq!(*ctx.result.text(TextField::Group), None);
    let mut ctx = grouped("-Grp", 0);
    record(&mut ctx.matched, "resolution", "720p", 0);
    overlap.call(&mut ctx);
    assert_eq!(ctx.result.text(TextField::Group).as_deref(), Some("Grp"));
    let mut ctx = grouped("[Grp]", usize::MAX);
    record(&mut ctx.matched, "resolution", "720p", 3);
    overlap.call(&mut ctx);
    assert_eq!(*ctx.result.text(TextField::Group), None);
    for (group, kept) in [("-", false), ("", false), ("--", true), ("Grp", true)] {
        let mut ctx = context("x");
        ctx.result.set_text(TextField::Group, Some(group.to_string()));
        assert!(empty.call(&mut ctx).is_none());
        assert_eq!(ctx.result.text(TextField::Group).is_some(), kept);
    }
    assert!(is_bracketed("[a]") && is_bracketed("[]") && !is_bracketed("[") && !is_bracketed("") && !is_bracketed("a]"));
}

#[test]
fn a_refused_pattern_is_reported_with_its_text() {
    match pattern_rule("x", Target::Title, "(unclosed", true, RegexHandlerOptions::default()) {
        Err(ParserError::ParseError(pattern)) => assert_eq!(pattern, "(unclosed"),
        Ok(_) => panic!("the pattern should have been refused"),
    }
    match compile("a{2,1}", false) {
        Err(e) => assert_eq!(e.message(), "Failed to parse title"),
        Ok(_) => panic!("the pattern should have been refused"),
    }
    assert!(compile("a{1,2}", false).is_ok());
}

#[test]
fn recipes_make_their_handlers() {
    let rule = |name: &str, text: &str| Recipe {
        name: name.to_string(),
        plan: Plan::Rule(Target::Flag(FlagField::Trash), text.to_string(), true, RegexHandlerOptions::default()),
    };
    let made = rule("trash", "cam").make().ok().unwrap();
    assert_eq!(made.get_name(), "trash");
    let mut ctx = context("a CAM rip");
    assert_eq!(descriptor(&made.call(&mut ctx)), Some(("CAM", 2, false, false)));
    assert!(Recipe { name: "group".to_string(), plan: Plan::DropEmptyGroup }.make().is_ok());
    let two = |first: &str, second: &str| Recipe {
        name: "episodes".to_string(),
        plan: Plan::EpisodeFallback(first.to_string(), second.to_string(), true),
    };
    assert!(two("(a)", "(b)").make().is_ok());
    match two("(a)", "(b").make() {
        Err(ParserError::ParseError(p)) => assert_eq!(p, "(b"),
        Ok(_) => panic!("the second pattern should have been refused"),
    }
    match two("(a", "(b").make() {
        Err(ParserError::ParseError(p)) => assert_eq!(p, "(a"),
        Ok(_) => panic!("the first pattern should have been refused"),
    }
    let mut parser = Parser::new();
    let recipes = vec![rule("a", "x"), rule("b", "(y"), rule("c", "(z"), rule("d", "w")];
    match add_handlers(&mut parser, &recipes) {
        Err(ParserError::ParseError(p)) => assert_eq!(p, "(y"),
        Ok(()) => panic!("a pattern should have been refused"),
    }
    assert_eq!(parser.handlers.len(), 1);
    assert_eq!(parser.handlers[0].get_name(), "a");
    assert!(add_handlers(&mut parser, &vec![rule("e", "v")]).is_ok());
    assert_eq!(parser.handlers.len(), 2);
    assert!(add_handlers(&mut parser, &Vec::new()).is_ok());
    assert_eq!(default_recipes().len(), 393);
}

#[test]
fn targets_are_copied_whole() {
    let targets = vec![
        Target::Text(TextField::Date, TextTransform::Date(vec!["%Y".to_string(), "%d".to_string()])),
        Target::Text(TextField::Site, TextTransform::Value("$1".to_string())),
        Target::List(ListField::Hdr, "DV".to_string()),
        Target::Numbers(NumbersField::Volumes, NumbersTransform::Range),
        Target::Language(Language::Greek),
        Target::Codec(Codec::Xvid),
        Target::Year,
        Target::Title,
    ];
    for target in targets {
        assert_eq!(format!("{:?}", target.duplicate()), format!("{:?}", target));
    }
}
