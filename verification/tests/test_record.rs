use torrent_title_parser::{
    Codec, FlagField, Language, ListField, NumbersField, ParsedTitle, TextField,
};

const TEXTS: [TextField; 15] = [
    TextField::Resolution,
    TextField::Date,
    TextField::Edition,
    TextField::Region,
    TextField::Quality,
    TextField::Bitrate,
    TextField::BitDepth,
    TextField::Group,
    TextField::Container,
    TextField::EpisodeCode,
    TextField::Site,
    TextField::Extension,
    TextField::Size,
    TextField::Network,
    TextField::CodecTag,
];

const FLAGS: [FlagField; 18] = [
    FlagField::Ppv,
    FlagField::Trash,
    FlagField::Adult,
    FlagField::Extended,
    FlagField::Convert,
    FlagField::Hardcoded,
    FlagField::Proper,
    FlagField::Repack,
    FlagField::Retail,
    FlagField::Remastered,
    FlagField::Unrated,
    FlagField::Complete,
    FlagField::Dubbed,
    FlagField::Subbed,
    FlagField::Documentary,
    FlagField::Upscaled,
    FlagField::Is3d,
    FlagField::Scene,
];

const LISTS: [ListField; 4] = [ListField::Hdr, ListField::Audio, ListField::Channels, ListField::Extras];

const NUMBERS: [NumbersField; 3] = [NumbersField::Volumes, NumbersField::Seasons, NumbersField::Episodes];

#[test]
fn a_new_record_holds_nothing() {
    let r = ParsedTitle::new();
    assert_eq!(r, ParsedTitle::default());
    assert_eq!(r.title(), "");
    assert_eq!(r.year(), None);
    assert_eq!(r.codec(), None);
    assert!(r.languages().is_empty());
    assert!(TEXTS.iter().all(|f| r.text(*f).is_none()));
    assert!(FLAGS.iter().all(|f| !r.flag(*f)));
    assert!(LISTS.iter().all(|f| r.list(*f).is_empty()));
    assert!(NUMBERS.iter().all(|f| r.numbers(*f).is_empty()));
}

#[test]
fn fields_have_distinct_positions() {
    for (i, f) in TEXTS.iter().enumerate() {
        assert_eq!(f.index(), i);
    }
    for (i, f) in FLAGS.iter().enumerate() {
        assert_eq!(f.index(), i);
    }
    for (i, f) in LISTS.iter().enumerate() {
        assert_eq!(f.index(), i);
    }
    for (i, f) in NUMBERS.iter().enumerate() {
        assert_eq!(f.index(), i);
    }
}

#[test]
fn a_stored_value_is_read_back_and_nothing_else_changes() {
    for f in TEXTS {
        let mut r = ParsedTitle::new();
        r.set_text(f, Some(format!("{:?}", f)));
        assert_eq!(*r.text(f), Some(format!("{:?}", f)));
        assert!(TEXTS.iter().all(|g| *g == f || r.text(*g).is_none()));
        r.set_text(f, None);
        assert_eq!(r, ParsedTitle::new());
    }
    for f in FLAGS {
        let mut r = ParsedTitle::new();
        r.set_flag(f, true);
        assert!(r.flag(f));
        assert!(FLAGS.iter().all(|g| *g == f || !r.flag(*g)));
        r.set_flag(f, false);
        assert_eq!(r, ParsedTitle::new());
    }
    for f in LISTS {
        let mut r = ParsedTitle::new();
        r.set_list(f, vec!["a".to_string(), "b".to_string()]);
        assert_eq!(*r.list(f), vec!["a", "b"]);
        assert!(LISTS.iter().all(|g| *g == f || r.list(*g).is_empty()));
        r.set_list(f, Vec::new());
        assert_eq!(r, ParsedTitle::new());
    }
    for f in NUMBERS {
        let mut r = ParsedTitle::new();
        r.set_numbers(f, vec![3, 1]);
        assert_eq!(*r.numbers(f), vec![3, 1]);
        assert!(NUMBERS.iter().all(|g| *g == f || r.numbers(*g).is_empty()));
        r.set_numbers(f, Vec::new());
        assert_eq!(r, ParsedTitle::new());
    }
}

#[test]
fn the_special_fields_are_stored_alone() {
    let mut r = ParsedTitle::new();
    r.set_title("A Title".to_string());
    r.set_year(Some(1999));
    r.set_codec(Some(Codec::Av1));
    r.set_languages(vec![Language::Thai, Language::LatinAmericanSpanish]);
    assert_eq!(r.title(), "A Title");
    assert_eq!(r.year(), Some(1999));
    assert_eq!(r.codec(), Some(Codec::Av1));
    assert_eq!(*r.languages(), vec![Language::Thai, Language::LatinAmericanSpanish]);
    assert!(TEXTS.iter().all(|f| r.text(*f).is_none()));
    assert!(FLAGS.iter().all(|f| !r.flag(*f)));
    let copy = r.clone();
    assert_eq!(copy, r);
    r.set_year(None);
    assert_ne!(copy, r);
}

#[test]
fn codecs_and_languages_have_names() {
    let codecs = [(Codec::Avc, "avc"), (Codec::Hevc, "hevc"), (Codec::Xvid, "xvid"), (Codec::Mpeg, "mpeg"), (Codec::Av1, "av1")];
    for (codec, name) in codecs {
        assert_eq!(codec.as_str(), name);
    }
    assert_eq!(Language::French.as_str(), "french");
    assert_eq!(Language::Portuguese.as_str(), "portuguese");
    assert_eq!(Language::LatinAmericanSpanish.as_str(), "latin american spanish");
    assert_eq!(Language::Vietnamese.as_str(), "vietnamese");
}
