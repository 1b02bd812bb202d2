use torrent_title_parser::transforms::{
    chain_transforms, convert_months, date_from_format, date_from_formats, identity,
    identity_non_optional, is_consecutive, lowercase, numbers_between, numbers_of, parse,
    range_func, replace_value, replace_with_value, resolution_transform, true_if_found,
    uniq_concat, uniq_concat_language, uppercase, value,
};
use torrent_title_parser::{Codec, Language};

fn text(s: &str) -> Option<Option<String>> {
    Some(Some(s.to_string()))
}

#[test]
fn identity_keeps_the_capture() {
    assert_eq!(identity("WEB-DL", &None), text("WEB-DL"));
    assert_eq!(identity("", &Some("old".to_string())), text(""));
    assert_eq!(identity_non_optional("A Title", &String::new()), Some("A Title".to_string()));
}

#[test]
fn case_transforms_follow_unicode() {
    assert_eq!(uppercase("s01e02", &None), text("S01E02"));
    assert_eq!(lowercase("MKV", &None), text("mkv"));
    assert_eq!(uppercase("straße", &None), text("STRASSE"));
    assert_eq!(lowercase("ÉTÉ", &None), text("été"));
}

#[test]
fn true_if_found_declines_the_empty_capture() {
    assert_eq!(true_if_found("", &false), None);
    assert_eq!(true_if_found("PROPER", &false), Some(true));
    assert_eq!(true_if_found("x", &true), Some(true));
}

#[test]
fn parse_reads_a_trimmed_number() {
    assert_eq!(parse("2019", &None), Some(Some(2019)));
    assert_eq!(parse("  2019\t", &None), Some(Some(2019)));
    assert_eq!(parse("\u{3000}7\u{a0}", &None), Some(Some(7)));
    assert_eq!(parse("-5", &None), Some(Some(-5)));
    assert_eq!(parse("+5", &None), Some(Some(5)));
    assert_eq!(parse("007", &Some(1)), Some(Some(7)));
    assert_eq!(parse("2147483647", &None), Some(Some(i32::MAX)));
    assert_eq!(parse("-2147483648", &None), Some(Some(i32::MIN)));
}

#[test]
fn parse_declines_what_is_no_number() {
    assert_eq!(parse("", &None), None);
    assert_eq!(parse("   ", &None), None);
    assert_eq!(parse("20 19", &None), None);
    assert_eq!(parse("2019p", &None), None);
    assert_eq!(parse("+", &None), None);
    assert_eq!(parse("-", &None), None);
    assert_eq!(parse("2147483648", &None), None);
    assert_eq!(parse("-2147483649", &None), None);
    assert_eq!(parse("99999999999999999999", &None), None);
}

#[test]
fn value_fills_the_template() {
    assert_eq!(value("$1p", "720", &None), text("720p"));
    assert_eq!(value("10bit", "anything", &None), text("10bit"));
    assert_eq!(value("$1", "", &None), text(""));
    assert_eq!(replace_value("$1-$1", "ab"), "ab-ab");
    assert_eq!(replace_value("Dolby Digital", "DD5.1"), "Dolby Digital");
    assert_eq!(replace_value("$$1", "x"), "$x");
}

#[test]
fn replace_with_value_ignores_the_capture() {
    assert_eq!(replace_with_value(Codec::Hevc, "x265"), Codec::Hevc);
    assert_eq!(replace_with_value(Language::French, ""), Language::French);
    assert_eq!(replace_with_value(7, "x"), 7);
}

#[test]
fn dates_are_normalised() {
    assert_eq!(date_from_format("%Y %m %d", "2017 05 03", &None), text("2017-05-03"));
    assert_eq!(date_from_format("%Y %m %d", "2017.05.03", &None), text("2017-05-03"));
    assert_eq!(date_from_format("%d %m %Y", "[03-05-2017]", &None), text("2017-05-03"));
    assert_eq!(date_from_format("%Y%m%d", "20170503", &None), text("2017-05-03"));
    assert_eq!(date_from_format("%d %b %Y", "9 Dec 2019", &None), text("2019-12-09"));
    assert_eq!(date_from_format("%d %b %Y", "9 Dece 2019", &None), text("2019-12-09"));
    assert_eq!(date_from_format("%d %b %y", "1 jan 20", &None), text("2020-01-01"));
}

#[test]
fn dates_that_do_not_exist_are_declined() {
    assert_eq!(date_from_format("%Y %m %d", "2017 13 03", &None), None);
    assert_eq!(date_from_format("%Y %m %d", "2017 02 30", &None), None);
    assert_eq!(date_from_format("%Y %m %d", "not a date", &None), None);
    assert_eq!(date_from_format("%Y %m %d", "", &None), None);
    assert_eq!(date_from_format("%Q", "2017 01 01", &None), None);
}

#[test]
fn the_first_fitting_format_wins() {
    let formats = vec!["%d %b %Y".to_string(), "%dst %b %Y".to_string(), "%dth %b %Y".to_string()];
    assert_eq!(date_from_formats(&formats, "9 Dec 2019", &None), text("2019-12-09"));
    assert_eq!(date_from_formats(&formats, "1st Jan 2020", &None), text("2020-01-01"));
    assert_eq!(date_from_formats(&formats, "4th Jul 1999", &None), text("1999-07-04"));
    assert_eq!(date_from_formats(&formats, "2nd Jan 2020", &None), None);
    assert_eq!(date_from_formats(&Vec::new(), "9 Dec 2019", &None), None);
}

#[test]
fn month_stems_are_shortened() {
    assert_eq!(convert_months("3 Janu 2020"), "3 Jan 2020");
    assert_eq!(convert_months("3 sept 2020"), "3 Sep 2020");
    assert_eq!(convert_months("3 JUNE 2020"), "3 Jun 2020");
    assert_eq!(convert_months("3 may 2020"), "3 May 2020");
    assert_eq!(convert_months("January"), "January");
    assert_eq!(convert_months(""), "");
}

#[test]
fn uniq_concat_appends_once() {
    let list = vec!["aac".to_string(), "dts".to_string()];
    assert_eq!(uniq_concat("ac3".to_string(), &list), Some(vec!["aac".to_string(), "dts".to_string(), "ac3".to_string()]));
    assert_eq!(uniq_concat("aac".to_string(), &list), Some(list.clone()));
    assert_eq!(uniq_concat("AAC".to_string(), &list).unwrap().len(), 3);
    assert_eq!(uniq_concat("x".to_string(), &Vec::new()), Some(vec!["x".to_string()]));
    assert_eq!(uniq_concat_language(Language::German, &vec![Language::French]), Some(vec![Language::French, Language::German]));
    assert_eq!(uniq_concat_language(Language::French, &vec![Language::French]), Some(vec![Language::French]));
}

#[test]
fn appending_twice_is_appending_once() {
    for start in [vec![], vec!["a".to_string()], vec!["a".to_string(), "b".to_string()]] {
        for v in ["a", "b", "c"] {
            let once = uniq_concat(v.to_string(), &start).unwrap();
            let twice = uniq_concat(v.to_string(), &once).unwrap();
            assert_eq!(once, twice);
            assert_eq!(once.iter().filter(|x| x.as_str() == v).count(), 1);
        }
    }
}

#[test]
fn resolution_names() {
    assert_eq!(resolution_transform("2160p", &None), text("2160p"));
    assert_eq!(resolution_transform("4K", &None), text("2160p"));
    assert_eq!(resolution_transform("1440P", &None), text("1440p"));
    assert_eq!(resolution_transform("2k", &None), text("1440p"));
    assert_eq!(resolution_transform("1080i", &None), text("1080p"));
    assert_eq!(resolution_transform("720", &None), text("720p"));
    assert_eq!(resolution_transform("x480x", &None), text("480p"));
    assert_eq!(resolution_transform("360p", &None), text("360p"));
    assert_eq!(resolution_transform("240p", &None), text("240p"));
    assert_eq!(resolution_transform("1080p 2160p", &None), text("2160p"));
    assert_eq!(resolution_transform("576p", &None), None);
    assert_eq!(resolution_transform("", &None), None);
}

#[test]
fn numbers_are_found_in_order() {
    assert_eq!(numbers_of("S01E02"), vec![1, 2]);
    assert_eq!(numbers_of("no digits"), Vec::<i32>::new());
    assert_eq!(numbers_of("7"), vec![7]);
    assert_eq!(numbers_of("1 99999999999 3"), vec![1, 3]);
    assert_eq!(numbers_between(3, 6), vec![3, 4, 5, 6]);
    assert_eq!(numbers_between(-1, 1), vec![-1, 0, 1]);
    assert!(is_consecutive(&vec![4, 5, 6]));
    assert!(is_consecutive(&vec![4]));
    assert!(is_consecutive(&Vec::new()));
    assert!(!is_consecutive(&vec![4, 6]));
    assert!(!is_consecutive(&vec![i32::MAX, i32::MIN]));
}

#[test]
fn ranges() {
    assert_eq!(range_func("1-3", &Vec::new()), Some(vec![1, 2, 3]));
    assert_eq!(range_func("Vol. 01-08", &Vec::new()), Some(vec![1, 2, 3, 4, 5, 6, 7, 8]));
    assert_eq!(range_func("1 & 2", &Vec::new()), Some(vec![1, 2]));
    assert_eq!(range_func("E01E02E03", &Vec::new()), Some(vec![1, 2, 3]));
    assert_eq!(range_func("5", &vec![9]), Some(vec![5]));
    assert_eq!(range_func("3-1", &Vec::new()), None);
    assert_eq!(range_func("2-2", &Vec::new()), None);
    assert_eq!(range_func("1 3 5", &Vec::new()), None);
    assert_eq!(range_func("", &Vec::new()), None);
    assert_eq!(range_func("none", &Vec::new()), None);
}

#[test]
fn chained_transforms_run_in_order() {
    let list = vec!["5.1".to_string()];
    let appended = chain_transforms(|v: &str| replace_value("7.1", v), |s: String, l: &Vec<String>| uniq_concat(s, l), "7 1", &list);
    assert_eq!(appended, Some(vec!["5.1".to_string(), "7.1".to_string()]));
    let kept = chain_transforms(|v: &str| replace_value("$1", v), |s: String, l: &Vec<String>| uniq_concat(s, l), "5.1", &list);
    assert_eq!(kept, Some(list.clone()));
    let language = chain_transforms(|v: &str| replace_with_value(Language::Thai, v), |l: Language, all: &Vec<Language>| uniq_concat_language(l, all), "thai", &Vec::new());
    assert_eq!(language, Some(vec![Language::Thai]));
}

#[test]
fn an_interval_that_runs_backwards_is_empty() {
    assert_eq!(numbers_between(3, 3), vec![3]);
    assert_eq!(numbers_between(4, 3), Vec::<i32>::new());
    assert_eq!(numbers_between(i32::MAX - 1, i32::MAX), vec![i32::MAX - 1, i32::MAX]);
}
