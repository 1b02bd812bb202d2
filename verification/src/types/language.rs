//! Languages.

use vstd::prelude::*;

verus! {

/// The languages a release name can announce for its audio or subtitles.
#[derive(Debug, Clone, Copy, PartialEq, Eq, Structural)]
pub enum Language {
    Arabic,
    Bengali,
    Bulgarian,
    Chinese,
    Croatian,
    Czech,
    Danish,
    Dutch,
    English,
    Estonian,
    Finnish,
    French,
    German,
    Greek,
    Gujarati,
    Hebrew,
    Hindi,
    Hungarian,
    Indonesian,
    Italian,
    Japanese,
    Kannada,
    Korean,
    LatinAmericanSpanish,
    Latvian,
    Lithuanian,
    Malay,
    Malayalam,
    Marathi,
    Norwegian,
    Persian,
    Polish,
    Portuguese,
    Punjabi,
    Romanian,
    Russian,
    Serbian,
    Slovak,
    Slovenian,
    Spanish,
    Swedish,
    Tamil,
    Telugu,
    Thai,
    Turkish,
    Ukrainian,
    Vietnamese,
}

impl Language {
    /// The canonical lower-case name.
    pub open spec fn name(self) -> Seq<char> {
        match self {
            Language::Arabic => "arabic"@,
            Language::Bengali => "bengali"@,
            Language::Bulgarian => "bulgarian"@,
            Language::Chinese => "chinese"@,
            Language::Croatian => "croatian"@,
            Language::Czech => "czech"@,
            Language::Danish => "danish"@,
            Language::Dutch => "dutch"@,
            Language::English => "english"@,
            Language::Estonian => "estonian"@,
            Language::Finnish => "finnish"@,
            Language::French => "french"@,
            Language::German => "german"@,
            Language::Greek => "greek"@,
            Language::Gujarati => "gujarati"@,
            Language::Hebrew => "hebrew"@,
            Language::Hindi => "hindi"@,
            Language::Hungarian => "hungarian"@,
            Language::Indonesian => "indonesian"@,
            Language::Italian => "italian"@,
            Language::Japanese => "japanese"@,
            Language::Kannada => "kannada"@,
            Language::Korean => "korean"@,
            Language::LatinAmericanSpanish => "latin american spanish"@,
            Language::Latvian => "latvian"@,
            Language::Lithuanian => "lithuanian"@,
            Language::Malay => "malay"@,
            Language::Malayalam => "malayalam"@,
            Language::Marathi => "marathi"@,
            Language::Norwegian => "norwegian"@,
            Language::Persian => "persian"@,
            Language::Polish => "polish"@,
            Language::Portuguese => "portuguese"@,
            Language::Punjabi => "punjabi"@,
            Language::Romanian => "romanian"@,
            Language::Russian => "russian"@,
            Language::Serbian => "serbian"@,
            Language::Slovak => "slovak"@,
            Language::Slovenian => "slovenian"@,
            Language::Spanish => "spanish"@,
            Language::Swedish => "swedish"@,
            Language::Tamil => "tamil"@,
            Language::Telugu => "telugu"@,
            Language::Thai => "thai"@,
            Language::Turkish => "turkish"@,
            Language::Ukrainian => "ukrainian"@,
            Language::Vietnamese => "vietnamese"@,
        }
    }

    /// The canonical lower-case name.
    pub fn as_str(&self) -> (r: &'static str)
        ensures
            r@ == self.name(),
    {
        match self {
            Language::Arabic => "arabic",
            Language::Bengali => "bengali",
            Language::Bulgarian => "bulgarian",
            Language::Chinese => "chinese",
            Language::Croatian => "croatian",
            Language::Czech => "czech",
            Language::Danish => "danish",
            Language::Dutch => "dutch",
            Language::English => "english",
            Language::Estonian => "estonian",
            Language::Finnish => "finnish",
            Language::French => "french",
            Language::German => "german",
            Language::Greek => "greek",
            Language::Gujarati => "gujarati",
            Language::Hebrew => "hebrew",
            Language::Hindi => "hindi",
            Language::Hungarian => "hungarian",
            Language::Indonesian => "indonesian",
            Language::Italian => "italian",
            Language::Japanese => "japanese",
            Language::Kannada => "kannada",
            Language::Korean => "korean",
            Language::LatinAmericanSpanish => "latin american spanish",
            Language::Latvian => "latvian",
            Language::Lithuanian => "lithuanian",
            Language::Malay => "malay",
            Language::Malayalam => "malayalam",
            Language::Marathi => "marathi",
            Language::Norwegian => "norwegian",
            Language::Persian => "persian",
            Language::Polish => "polish",
            Language::Portuguese => "portuguese",
            Language::Punjabi => "punjabi",
            Language::Romanian => "romanian",
            Language::Russian => "russian",
            Language::Serbian => "serbian",
            Language::Slovak => "slovak",
            Language::Slovenian => "slovenian",
            Language::Spanish => "spanish",
            Language::Swedish => "swedish",
            Language::Tamil => "tamil",
            Language::Telugu => "telugu",
            Language::Thai => "thai",
            Language::Turkish => "turkish",
            Language::Ukrainian => "ukrainian",
            Language::Vietnamese => "vietnamese",
        }
    }
}

} // verus!
