//! The languages that the backends understand, and their codes.

use vstd::prelude::*;
use crate::text::same_text;

verus! {

/// A language, or `Auto` where the backend is to recognise the source
/// language by itself.
#[derive(PartialEq, Eq, Structural, Debug, Clone, Copy)]
pub enum Language {
    /// `auto`
    Auto,
    /// `af`
    Afrikaans,
    /// `am`
    Amharic,
    /// `ar`
    Arabic,
    /// `az`
    Azerbaijani,
    /// `be`
    Belarusian,
    /// `bg`
    Bulgarian,
    /// `bn`
    Bengali,
    /// `bs`
    Bosnian,
    /// `ca`
    Catalan,
    /// `co`
    Corsican,
    /// `cs`
    Czech,
    /// `cy`
    Welsh,
    /// `da`
    Danish,
    /// `de`
    German,
    /// `el`
    Greek,
    /// `en`
    English,
    /// `eo`
    Esperanto,
    /// `es`
    Spanish,
    /// `et`
    Estonian,
    /// `eu`
    Basque,
    /// `fa`
    Persian,
    /// `fi`
    Finnish,
    /// `fr`
    French,
    /// `fy`
    WesternFrisian,
    /// `ga`
    Irish,
    /// `gd`
    ScottishGaelic,
    /// `gl`
    Galician,
    /// `gu`
    Gujarati,
    /// `ha`
    Hausa,
    /// `he`
    Hebrew,
    /// `hi`
    Hindi,
    /// `hr`
    Croatian,
    /// `ht`
    HaitianCreole,
    /// `hu`
    Hungarian,
    /// `hy`
    Armenian,
    /// `id`
    Indonesian,
    /// `ig`
    Igbo,
    /// `is`
    Icelandic,
    /// `it`
    Italian,
    /// `ja`
    Japanese,
    /// `ka`
    Georgian,
    /// `kk`
    Kazakh,
    /// `km`
    CentralKhmer,
    /// `kn`
    Kannada,
    /// `ko`
    Korean,
    /// `ku`
    Kurdish,
    /// `ky`
    Kirghiz,
    /// `la`
    Latin,
    /// `lb`
    Luxembourgish,
    /// `lo`
    Lao,
    /// `lt`
    Lithuanian,
    /// `lv`
    Latvian,
    /// `mg`
    Malagasy,
    /// `mi`
    Maori,
    /// `mk`
    Macedonian,
    /// `ml`
    Malayalam,
    /// `mn`
    Mongolian,
    /// `mr`
    Marathi,
    /// `ms`
    Malay,
    /// `mt`
    Maltese,
    /// `my`
    Burmese,
    /// `ne`
    Nepali,
    /// `nl`
    Dutch,
    /// `no`
    Norwegian,
    /// `ny`
    Chichewa,
    /// `or`
    Oriya,
    /// `pa`
    Panjabi,
    /// `pl`
    Polish,
    /// `ps`
    Pushto,
    /// `pt`
    Portuguese,
    /// `ro`
    Romanian,
    /// `ru`
    Russian,
    /// `sd`
    Sindhi,
    /// `si`
    Sinhalese,
    /// `sk`
    Slovak,
    /// `sl`
    Slovenian,
    /// `sm`
    Samoan,
    /// `sn`
    Shona,
    /// `so`
    Somali,
    /// `sq`
    Albanian,
    /// `sr`
    Serbian,
    /// `st`
    SothoSouthern,
    /// `su`
    Sundanese,
    /// `sv`
    Swedish,
    /// `sw`
    Swahili,
    /// `ta`
    Tamil,
    /// `te`
    Telugu,
    /// `tg`
    Tajik,
    /// `th`
    Thai,
    /// `tl`
    Tagalog,
    /// `tr`
    Turkish,
    /// `ug`
    Uighur,
    /// `uk`
    Ukrainian,
    /// `ur`
    Urdu,
    /// `uz`
    Uzbek,
    /// `vi`
    Vietnamese,
    /// `xh`
    Xhosa,
    /// `yi`
    Yiddish,
    /// `yo`
    Yoruba,
    /// `zh-CN`
    SimpleChinese,
    /// `zh-TW`
    TraditionalChinese,
    /// `zu`
    Zulu,
}

impl Language {
    /// The code under which the backends know the language.
    pub open spec fn code(self) -> Seq<char> {
        match self {
            Language::Auto => "auto"@,
            Language::Afrikaans => "af"@,
            Language::Amharic => "am"@,
            Language::Arabic => "ar"@,
            Language::Azerbaijani => "az"@,
            Language::Belarusian => "be"@,
            Language::Bulgarian => "bg"@,
            Language::Bengali => "bn"@,
            Language::Bosnian => "bs"@,
            Language::Catalan => "ca"@,
            Language::Corsican => "co"@,
            Language::Czech => "cs"@,
            Language::Welsh => "cy"@,
            Language::Danish => "da"@,
            Language::German => "de"@,
            Language::Greek => "el"@,
            Language::English => "en"@,
            Language::Esperanto => "eo"@,
            Language::Spanish => "es"@,
            Language::Estonian => "et"@,
            Language::Basque => "eu"@,
            Language::Persian => "fa"@,
            Language::Finnish => "fi"@,
            Language::French => "fr"@,
            Language::WesternFrisian => "fy"@,
            Language::Irish => "ga"@,
            Language::ScottishGaelic => "gd"@,
            Language::Galician => "gl"@,
            Language::Gujarati => "gu"@,
            Language::Hausa => "ha"@,
            Language::Hebrew => "he"@,
            Language::Hindi => "hi"@,
            Language::Croatian => "hr"@,
            Language::HaitianCreole => "ht"@,
            Language::Hungarian => "hu"@,
            Language::Armenian => "hy"@,
            Language::Indonesian => "id"@,
            Language::Igbo => "ig"@,
            Language::Icelandic => "is"@,
            Language::Italian => "it"@,
            Language::Japanese => "ja"@,
            Language::Georgian => "ka"@,
            Language::Kazakh => "kk"@,
            Language::CentralKhmer => "km"@,
            Language::Kannada => "kn"@,
            Language::Korean => "ko"@,
            Language::Kurdish => "ku"@,
            Language::Kirghiz => "ky"@,
            Language::Latin => "la"@,
            Language::Luxembourgish => "lb"@,
            Language::Lao => "lo"@,
            Language::Lithuanian => "lt"@,
            Language::Latvian => "lv"@,
            Language::Malagasy => "mg"@,
            Language::Maori => "mi"@,
            Language::Macedonian => "mk"@,
            Language::Malayalam => "ml"@,
            Language::Mongolian => "mn"@,
            Language::Marathi => "mr"@,
            Language::Malay => "ms"@,
            Language::Maltese => "mt"@,
            Language::Burmese => "my"@,
            Language::Nepali => "ne"@,
            Language::Dutch => "nl"@,
            Language::Norwegian => "no"@,
            Language::Chichewa => "ny"@,
            Language::Oriya => "or"@,
            Language::Panjabi => "pa"@,
            Language::Polish => "pl"@,
            Language::Pushto => "ps"@,
            Language::Portuguese => "pt"@,
            Language::Romanian => "ro"@,
            Language::Russian => "ru"@,
            Language::Sindhi => "sd"@,
            Language::Sinhalese => "si"@,
            Language::Slovak => "sk"@,
            Language::Slovenian => "sl"@,
            Language::Samoan => "sm"@,
            Language::Shona => "sn"@,
            Language::Somali => "so"@,
            Language::Albanian => "sq"@,
            Language::Serbian => "sr"@,
            Language::SothoSouthern => "st"@,
            Language::Sundanese => "su"@,
            Language::Swedish => "sv"@,
            Language::Swahili => "sw"@,
            Language::Tamil => "ta"@,
            Language::Telugu => "te"@,
            Language::Tajik => "tg"@,
            Language::Thai => "th"@,
            Language::Tagalog => "tl"@,
            Language::Turkish => "tr"@,
            Language::Uighur => "ug"@,
            Language::Ukrainian => "uk"@,
            Language::Urdu => "ur"@,
            Language::Uzbek => "uz"@,
            Language::Vietnamese => "vi"@,
            Language::Xhosa => "xh"@,
            Language::Yiddish => "yi"@,
            Language::Yoruba => "yo"@,
            Language::SimpleChinese => "zh-CN"@,
            Language::TraditionalChinese => "zh-TW"@,
            Language::Zulu => "zu"@,
        }
    }

    /// The code of the language; every language has one.
    pub fn abbreviation(&self) -> (code: Option<&'static str>)
        ensures
            code.is_some(),
            code.unwrap()@ == self.code(),
    {
        match self {
            Language::Auto => Some("auto"),
            Language::Afrikaans => Some("af"),
            Language::Amharic => Some("am"),
            Language::Arabic => Some("ar"),
            Language::Azerbaijani => Some("az"),
            Language::Belarusian => Some("be"),
            Language::Bulgarian => Some("bg"),
            Language::Bengali => Some("bn"),
            Language::Bosnian => Some("bs"),
            Language::Catalan => Some("ca"),
            Language::Corsican => Some("co"),
            Language::Czech => Some("cs"),
            Language::Welsh => Some("cy"),
            Language::Danish => Some("da"),
            Language::German => Some("de"),
            Language::Greek => Some("el"),
            Language::English => Some("en"),
            Language::Esperanto => Some("eo"),
            Language::Spanish => Some("es"),
            Language::Estonian => Some("et"),
            Language::Basque => Some("eu"),
            Language::Persian => Some("fa"),
            Language::Finnish => Some("fi"),
            Language::French => Some("fr"),
            Language::WesternFrisian => Some("fy"),
            Language::Irish => Some("ga"),
            Language::ScottishGaelic => Some("gd"),
            Language::Galician => Some("gl"),
            Language::Gujarati => Some("gu"),
            Language::Hausa => Some("ha"),
            Language::Hebrew => Some("he"),
            Language::Hindi => Some("hi"),
            Language::Croatian => Some("hr"),
            Language::HaitianCreole => Some("ht"),
            Language::Hungarian => Some("hu"),
            Language::Armenian => Some("hy"),
            Language::Indonesian => Some("id"),
            Language::Igbo => Some("ig"),
            Language::Icelandic => Some("is"),
            Language::Italian => Some("it"),
            Language::Japanese => Some("ja"),
            Language::Georgian => Some("ka"),
            Language::Kazakh => Some("kk"),
            Language::CentralKhmer => Some("km"),
            Language::Kannada => Some("kn"),
            Language::Korean => Some("ko"),
            Language::Kurdish => Some("ku"),
            Language::Kirghiz => Some("ky"),
            Language::Latin => Some("la"),
            Language::Luxembourgish => Some("lb"),
            Language::Lao => Some("lo"),
            Language::Lithuanian => Some("lt"),
            Language::Latvian => Some("lv"),
            Language::Malagasy => Some("mg"),
            Language::Maori => Some("mi"),
            Language::Macedonian => Some("mk"),
            Language::Malayalam => Some("ml"),
            Language::Mongolian => Some("mn"),
            Language::Marathi => Some("mr"),
            Language::Malay => Some("ms"),
            Language::Maltese => Some("mt"),
            Language::Burmese => Some("my"),
            Language::Nepali => Some("ne"),
            Language::Dutch => Some("nl"),
            Language::Norwegian => Some("no"),
            Language::Chichewa => Some("ny"),
            Language::Oriya => Some("or"),
            Language::Panjabi => Some("pa"),
            Language::Polish => Some("pl"),
            Language::Pushto => Some("ps"),
            Language::Portuguese => Some("pt"),
            Language::Romanian => Some("ro"),
            Language::Russian => Some("ru"),
            Language::Sindhi => Some("sd"),
            Language::Sinhalese => Some("si"),
            Language::Slovak => Some("sk"),
            Language::Slovenian => Some("sl"),
            Language::Samoan => Some("sm"),
            Language::Shona => Some("sn"),
            Language::Somali => Some("so"),
            Language::Albanian => Some("sq"),
            Language::Serbian => Some("sr"),
            Language::SothoSouthern => Some("st"),
            Language::Sundanese => Some("su"),
            Language::Swedish => Some("sv"),
            Language::Swahili => Some("sw"),
            Language::Tamil => Some("ta"),
            Language::Telugu => Some("te"),
            Language::Tajik => Some("tg"),
            Language::Thai => Some("th"),
            Language::Tagalog => Some("tl"),
            Language::Turkish => Some("tr"),
            Language::Uighur => Some("ug"),
            Language::Ukrainian => Some("uk"),
            Language::Urdu => Some("ur"),
            Language::Uzbek => Some("uz"),
            Language::Vietnamese => Some("vi"),
            Language::Xhosa => Some("xh"),
            Language::Yiddish => Some("yi"),
            Language::Yoruba => Some("yo"),
            Language::SimpleChinese => Some("zh-CN"),
            Language::TraditionalChinese => Some("zh-TW"),
            Language::Zulu => Some("zu"),
        }
    }

    /// The language that has the given code, if one has it.
    pub open spec fn with_code(code: Seq<char>) -> Option<Language> {
        if exists|language: Language| language.code() == code {
            Some(choose|language: Language| language.code() == code)
        } else {
            None
        }
    }

    /// The language with the given code. Codes are matched exactly: case
    /// counts, and no surrounding space is dropped.
    pub fn from(abbreviation: &str) -> (language: Option<Language>)
        ensures
            language == Language::with_code(abbreviation@),
            match language {
                Some(found) => found.code() == abbreviation@,
                None => forall|other: Language| other.code() != abbreviation@,
            },
    {
        proof {
            lemma_with_code(abbreviation@);
        }
        let language = if same_text(abbreviation, "auto") {
            Some(Language::Auto)
        } else if same_text(abbreviation, "af") {
            Some(Language::Afrikaans)
        } else if same_text(abbreviation, "am") {
            Some(Language::Amharic)
        } else if same_text(abbreviation, "ar") {
            Some(Language::Arabic)
        } else if same_text(abbreviation, "az") {
            Some(Language::Azerbaijani)
        } else if same_text(abbreviation, "be") {
            Some(Language::Belarusian)
        } else if same_text(abbreviation, "bg") {
            Some(Language::Bulgarian)
        } else if same_text(abbreviation, "bn") {
            Some(Language::Bengali)
        } else if same_text(abbreviation, "bs") {
            Some(Language::Bosnian)
        } else if same_text(abbreviation, "ca") {
            Some(Language::Catalan)
        } else if same_text(abbreviation, "co") {
            Some(Language::Corsican)
        } else if same_text(abbreviation, "cs") {
            Some(Language::Czech)
        } else if same_text(abbreviation, "cy") {
            Some(Language::Welsh)
        } else if same_text(abbreviation, "da") {
            Some(Language::Danish)
        } else if same_text(abbreviation, "de") {
            Some(Language::German)
        } else if same_text(abbreviation, "el") {
            Some(Language::Greek)
        } else if same_text(abbreviation, "en") {
            Some(Language::English)
        } else if same_text(abbreviation, "eo") {
            Some(Language::Esperanto)
        } else if same_text(abbreviation, "es") {
            Some(Language::Spanish)
        } else if same_text(abbreviation, "et") {
            Some(Language::Estonian)
        } else if same_text(abbreviation, "eu") {
            Some(Language::Basque)
        } else if same_text(abbreviation, "fa") {
            Some(Language::Persian)
        } else if same_text(abbreviation, "fi") {
            Some(Language::Finnish)
        } else if same_text(abbreviation, "fr") {
            Some(Language::French)
        } else if same_text(abbreviation, "fy") {
            Some(Language::WesternFrisian)
        } else if same_text(abbreviation, "ga") {
            Some(Language::Irish)
        } else if same_text(abbreviation, "gd") {
            Some(Language::ScottishGaelic)
        } else if same_text(abbreviation, "gl") {
            Some(Language::Galician)
        } else if same_text(abbreviation, "gu") {
            Some(Language::Gujarati)
        } else if same_text(abbreviation, "ha") {
            Some(Language::Hausa)
        } else if same_text(abbreviation, "he") {
            Some(Language::Hebrew)
        } else if same_text(abbreviation, "hi") {
            Some(Language::Hindi)
        } else if same_text(abbreviation, "hr") {
            Some(Language::Croatian)
        } else if same_text(abbreviation, "ht") {
            Some(Language::HaitianCreole)
        } else if same_text(abbreviation, "hu") {
            Some(Language::Hungarian)
        } else if same_text(abbreviation, "hy") {
            Some(Language::Armenian)
        } else if same_text(abbreviation, "id") {
            Some(Language::Indonesian)
        } else if same_text(abbreviation, "ig") {
            Some(Language::Igbo)
        } else if same_text(abbreviation, "is") {
            Some(Language::Icelandic)
        } else if same_text(abbreviation, "it") {
            Some(Language::Italian)
        } else if same_text(abbreviation, "ja") {
            Some(Language::Japanese)
        } else if same_text(abbreviation, "ka") {
            Some(Language::Georgian)
        } else if same_text(abbreviation, "kk") {
            Some(Language::Kazakh)
        } else if same_text(abbreviation, "km") {
            Some(Language::CentralKhmer)
        } else if same_text(abbreviation, "kn") {
            Some(Language::Kannada)
        } else if same_text(abbreviation, "ko") {
            Some(Language::Korean)
        } else if same_text(abbreviation, "ku") {
            Some(Language::Kurdish)
        } else if same_text(abbreviation, "ky") {
            Some(Language::Kirghiz)
        } else if same_text(abbreviation, "la") {
            Some(Language::Latin)
        } else if same_text(abbreviation, "lb") {
            Some(Language::Luxembourgish)
        } else if same_text(abbreviation, "lo") {
            Some(Language::Lao)
        } else if same_text(abbreviation, "lt") {
            Some(Language::Lithuanian)
        } else if same_text(abbreviation, "lv") {
            Some(Language::Latvian)
        } else if same_text(abbreviation, "mg") {
            Some(Language::Malagasy)
        } else if same_text(abbreviation, "mi") {
            Some(Language::Maori)
        } else if same_text(abbreviation, "mk") {
            Some(Language::Macedonian)
        } else if same_text(abbreviation, "ml") {
            Some(Language::Malayalam)
        } else if same_text(abbreviation, "mn") {
            Some(Language::Mongolian)
        } else if same_text(abbreviation, "mr") {
            Some(Language::Marathi)
        } else if same_text(abbreviation, "ms") {
            Some(Language::Malay)
        } else if same_text(abbreviation, "mt") {
            Some(Language::Maltese)
        } else if same_text(abbreviation, "my") {
            Some(Language::Burmese)
        } else if same_text(abbreviation, "ne") {
            Some(Language::Nepali)
        } else if same_text(abbreviation, "nl") {
            Some(Language::Dutch)
        } else if same_text(abbreviation, "no") {
            Some(Language::Norwegian)
        } else if same_text(abbreviation, "ny") {
            Some(Language::Chichewa)
        } else if same_text(abbreviation, "or") {
            Some(Language::Oriya)
        } else if same_text(abbreviation, "pa") {
            Some(Language::Panjabi)
        } else if same_text(abbreviation, "pl") {
            Some(Language::Polish)
        } else if same_text(abbreviation, "ps") {
            Some(Language::Pushto)
        } else if same_text(abbreviation, "pt") {
            Some(Language::Portuguese)
        } else if same_text(abbreviation, "ro") {
            Some(Language::Romanian)
        } else if same_text(abbreviation, "ru") {
            Some(Language::Russian)
        } else if same_text(abbreviation, "sd") {
            Some(Language::Sindhi)
        } else if same_text(abbreviation, "si") {
            Some(Language::Sinhalese)
        } else if same_text(abbreviation, "sk") {
            Some(Language::Slovak)
        } else if same_text(abbreviation, "sl") {
            Some(Language::Slovenian)
        } else if same_text(abbreviation, "sm") {
            Some(Language::Samoan)
        } else if same_text(abbreviation, "sn") {
            Some(Language::Shona)
        } else if same_text(abbreviation, "so") {
            Some(Language::Somali)
        } else if same_text(abbreviation, "sq") {
            Some(Language::Albanian)
        } else if same_text(abbreviation, "sr") {
            Some(Language::Serbian)
        } else if same_text(abbreviation, "st") {
            Some(Language::SothoSouthern)
        } else if same_text(abbreviation, "su") {
            Some(Language::Sundanese)
        } else if same_text(abbreviation, "sv") {
            Some(Language::Swedish)
        } else if same_text(abbreviation, "sw") {
            Some(Language::Swahili)
        } else if same_text(abbreviation, "ta") {
            Some(Language::Tamil)
        } else if same_text(abbreviation, "te") {
            Some(Language::Telugu)
        } else if same_text(abbreviation, "tg") {
            Some(Language::Tajik)
        } else if same_text(abbreviation, "th") {
            Some(Language::Thai)
        } else if same_text(abbreviation, "tl") {
            Some(Language::Tagalog)
        } else if same_text(abbreviation, "tr") {
            Some(Language::Turkish)
        } else if same_text(abbreviation, "ug") {
            Some(Language::Uighur)
        } else if same_text(abbreviation, "uk") {
            Some(Language::Ukrainian)
        } else if same_text(abbreviation, "ur") {
            Some(Language::Urdu)
        } else if same_text(abbreviation, "uz") {
            Some(Language::Uzbek)
        } else if same_text(abbreviation, "vi") {
            Some(Language::Vietnamese)
        } else if same_text(abbreviation, "xh") {
            Some(Language::Xhosa)
        } else if same_text(abbreviation, "yi") {
            Some(Language::Yiddish)
        } else if same_text(abbreviation, "yo") {
            Some(Language::Yoruba)
        } else if same_text(abbreviation, "zh-CN") {
            Some(Language::SimpleChinese)
        } else if same_text(abbreviation, "zh-TW") {
            Some(Language::TraditionalChinese)
        } else if same_text(abbreviation, "zu") {
            Some(Language::Zulu)
        } else {
            assert forall|other: Language| other.code() != abbreviation@ by {
                match other {
                    Language::Auto => {},
                    Language::Afrikaans => {},
                    Language::Amharic => {},
                    Language::Arabic => {},
                    Language::Azerbaijani => {},
                    Language::Belarusian => {},
                    Language::Bulgarian => {},
                    Language::Bengali => {},
                    Language::Bosnian => {},
                    Language::Catalan => {},
                    Language::Corsican => {},
                    Language::Czech => {},
                    Language::Welsh => {},
                    Language::Danish => {},
                    Language::German => {},
                    Language::Greek => {},
                    Language::English => {},
                    Language::Esperanto => {},
                    Language::Spanish => {},
                    Language::Estonian => {},
                    Language::Basque => {},
                    Language::Persian => {},
                    Language::Finnish => {},
                    Language::French => {},
                    Language::WesternFrisian => {},
                    Language::Irish => {},
                    Language::ScottishGaelic => {},
                    Language::Galician => {},
                    Language::Gujarati => {},
                    Language::Hausa => {},
                    Language::Hebrew => {},
                    Language::Hindi => {},
                    Language::Croatian => {},
                    Language::HaitianCreole => {},
                    Language::Hungarian => {},
                    Language::Armenian => {},
                    Language::Indonesian => {},
                    Language::Igbo => {},
                    Language::Icelandic => {},
                    Language::Italian => {},
                    Language::Japanese => {},
                    Language::Georgian => {},
                    Language::Kazakh => {},
                    Language::CentralKhmer => {},
                    Language::Kannada => {},
                    Language::Korean => {},
                    Language::Kurdish => {},
                    Language::Kirghiz => {},
                    Language::Latin => {},
                    Language::Luxembourgish => {},
                    Language::Lao => {},
                    Language::Lithuanian => {},
                    Language::Latvian => {},
                    Language::Malagasy => {},
                    Language::Maori => {},
                    Language::Macedonian => {},
                    Language::Malayalam => {},
                    Language::Mongolian => {},
                    Language::Marathi => {},
                    Language::Malay => {},
                    Language::Maltese => {},
                    Language::Burmese => {},
                    Language::Nepali => {},
                    Language::Dutch => {},
                    Language::Norwegian => {},
                    Language::Chichewa => {},
                    Language::Oriya => {},
                    Language::Panjabi => {},
                    Language::Polish => {},
                    Language::Pushto => {},
                    Language::Portuguese => {},
                    Language::Romanian => {},
                    Language::Russian => {},
                    Language::Sindhi => {},
                    Language::Sinhalese => {},
                    Language::Slovak => {},
                    Language::Slovenian => {},
                    Language::Samoan => {},
                    Language::Shona => {},
                    Language::Somali => {},
                    Language::Albanian => {},
                    Language::Serbian => {},
                    Language::SothoSouthern => {},
                    Language::Sundanese => {},
                    Language::Swedish => {},
                    Language::Swahili => {},
                    Language::Tamil => {},
                    Language::Telugu => {},
                    Language::Tajik => {},
                    Language::Thai => {},
                    Language::Tagalog => {},
                    Language::Turkish => {},
                    Language::Uighur => {},
                    Language::Ukrainian => {},
                    Language::Urdu => {},
                    Language::Uzbek => {},
                    Language::Vietnamese => {},
                    Language::Xhosa => {},
                    Language::Yiddish => {},
                    Language::Yoruba => {},
                    Language::SimpleChinese => {},
                    Language::TraditionalChinese => {},
                    Language::Zulu => {},
                }
            }
            None
        };
        proof {
            if let Some(found) = language {
                assert(found.code() == abbreviation@);
            }
        }
        language
    }
}

/// What tells two codes apart: the length, and the first, second and last
/// character.
spec fn outline(code: Seq<char>) -> (nat, char, char, char) {
    (code.len(), code[0], code[1], code.last())
}

/// The outline of each language's code, read off the code itself.
proof fn lemma_outlines(language: Language)
    ensures
        outline(language.code()) == match language {
            Language::Auto => (4nat, 'a', 'u', 'o'),
            Language::Afrikaans => (2nat, 'a', 'f', 'f'),
            Language::Amharic => (2nat, 'a', 'm', 'm'),
            Language::Arabic => (2nat, 'a', 'r', 'r'),
            Language::Azerbaijani => (2nat, 'a', 'z', 'z'),
            Language::Belarusian => (2nat, 'b', 'e', 'e'),
            Language::Bulgarian => (2nat, 'b', 'g', 'g'),
            Language::Bengali => (2nat, 'b', 'n', 'n'),
            Language::Bosnian => (2nat, 'b', 's', 's'),
            Language::Catalan => (2nat, 'c', 'a', 'a'),
            Language::Corsican => (2nat, 'c', 'o', 'o'),
            Language::Czech => (2nat, 'c', 's', 's'),
            Language::Welsh => (2nat, 'c', 'y', 'y'),
            Language::Danish => (2nat, 'd', 'a', 'a'),
            Language::German => (2nat, 'd', 'e', 'e'),
            Language::Greek => (2nat, 'e', 'l', 'l'),
            Language::English => (2nat, 'e', 'n', 'n'),
            Language::Esperanto => (2nat, 'e', 'o', 'o'),
            Language::Spanish => (2nat, 'e', 's', 's'),
            Language::Estonian => (2nat, 'e', 't', 't'),
            Language::Basque => (2nat, 'e', 'u', 'u'),
            Language::Persian => (2nat, 'f', 'a', 'a'),
            Language::Finnish => (2nat, 'f', 'i', 'i'),
            Language::French => (2nat, 'f', 'r', 'r'),
            Language::WesternFrisian => (2nat, 'f', 'y', 'y'),
            Language::Irish => (2nat, 'g', 'a', 'a'),
            Language::ScottishGaelic => (2nat, 'g', 'd', 'd'),
            Language::Galician => (2nat, 'g', 'l', 'l'),
            Language::Gujarati => (2nat, 'g', 'u', 'u'),
            Language::Hausa => (2nat, 'h', 'a', 'a'),
            Language::Hebrew => (2nat, 'h', 'e', 'e'),
            Language::Hindi => (2nat, 'h', 'i', 'i'),
            Language::Croatian => (2nat, 'h', 'r', 'r'),
            Language::HaitianCreole => (2nat, 'h', 't', 't'),
            Language::Hungarian => (2nat, 'h', 'u', 'u'),
            Language::Armenian => (2nat, 'h', 'y', 'y'),
            Language::Indonesian => (2nat, 'i', 'd', 'd'),
            Language::Igbo => (2nat, 'i', 'g', 'g'),
            Language::Icelandic => (2nat, 'i', 's', 's'),
            Language::Italian => (2nat, 'i', 't', 't'),
            Language::Japanese => (2nat, 'j', 'a', 'a'),
            Language::Georgian => (2nat, 'k', 'a', 'a'),
            Language::Kazakh => (2nat, 'k', 'k', 'k'),
            Language::CentralKhmer => (2nat, 'k', 'm', 'm'),
            Language::Kannada => (2nat, 'k', 'n', 'n'),
            Language::Korean => (2nat, 'k', 'o', 'o'),
            Language::Kurdish => (2nat, 'k', 'u', 'u'),
            Language::Kirghiz => (2nat, 'k', 'y', 'y'),
            Language::Latin => (2nat, 'l', 'a', 'a'),
            Language::Luxembourgish => (2nat, 'l', 'b', 'b'),
            Language::Lao => (2nat, 'l', 'o', 'o'),
            Language::Lithuanian => (2nat, 'l', 't', 't'),
            Language::Latvian => (2nat, 'l', 'v', 'v'),
            Language::Malagasy => (2nat, 'm', 'g', 'g'),
            Language::Maori => (2nat, 'm', 'i', 'i'),
            Language::Macedonian => (2nat, 'm', 'k', 'k'),
            Language::Malayalam => (2nat, 'm', 'l', 'l'),
            Language::Mongolian => (2nat, 'm', 'n', 'n'),
            Language::Marathi => (2nat, 'm', 'r', 'r'),
            Language::Malay => (2nat, 'm', 's', 's'),
            Language::Maltese => (2nat, 'm', 't', 't'),
            Language::Burmese => (2nat, 'm', 'y', 'y'),
            Language::Nepali => (2nat, 'n', 'e', 'e'),
            Language::Dutch => (2nat, 'n', 'l', 'l'),
            Language::Norwegian => (2nat, 'n', 'o', 'o'),
            Language::Chichewa => (2nat, 'n', 'y', 'y'),
            Language::Oriya => (2nat, 'o', 'r', 'r'),
            Language::Panjabi => (2nat, 'p', 'a', 'a'),
            Language::Polish => (2nat, 'p', 'l', 'l'),
            Language::Pushto => (2nat, 'p', 's', 's'),
            Language::Portuguese => (2nat, 'p', 't', 't'),
            Language::Romanian => (2nat, 'r', 'o', 'o'),
            Language::Russian => (2nat, 'r', 'u', 'u'),
            Language::Sindhi => (2nat, 's', 'd', 'd'),
            Language::Sinhalese => (2nat, 's', 'i', 'i'),
            Language::Slovak => (2nat, 's', 'k', 'k'),
            Language::Slovenian => (2nat, 's', 'l', 'l'),
            Language::Samoan => (2nat, 's', 'm', 'm'),
            Language::Shona => (2nat, 's', 'n', 'n'),
            Language::Somali => (2nat, 's', 'o', 'o'),
            Language::Albanian => (2nat, 's', 'q', 'q'),
            Language::Serbian => (2nat, 's', 'r', 'r'),
            Language::SothoSouthern => (2nat, 's', 't', 't'),
            Language::Sundanese => (2nat, 's', 'u', 'u'),
            Language::Swedish => (2nat, 's', 'v', 'v'),
            Language::Swahili => (2nat, 's', 'w', 'w'),
            Language::Tamil => (2nat, 't', 'a', 'a'),
            Language::Telugu => (2nat, 't', 'e', 'e'),
            Language::Tajik => (2nat, 't', 'g', 'g'),
            Language::Thai => (2nat, 't', 'h', 'h'),
            Language::Tagalog => (2nat, 't', 'l', 'l'),
            Language::Turkish => (2nat, 't', 'r', 'r'),
            Language::Uighur => (2nat, 'u', 'g', 'g'),
            Language::Ukrainian => (2nat, 'u', 'k', 'k'),
            Language::Urdu => (2nat, 'u', 'r', 'r'),
            Language::Uzbek => (2nat, 'u', 'z', 'z'),
            Language::Vietnamese => (2nat, 'v', 'i', 'i'),
            Language::Xhosa => (2nat, 'x', 'h', 'h'),
            Language::Yiddish => (2nat, 'y', 'i', 'i'),
            Language::Yoruba => (2nat, 'y', 'o', 'o'),
            Language::SimpleChinese => (5nat, 'z', 'h', 'N'),
            Language::TraditionalChinese => (5nat, 'z', 'h', 'W'),
            Language::Zulu => (2nat, 'z', 'u', 'u'),
        },
{
    match language {
        Language::Auto => reveal_strlit("auto"),
        Language::Afrikaans => reveal_strlit("af"),
        Language::Amharic => reveal_strlit("am"),
        Language::Arabic => reveal_strlit("ar"),
        Language::Azerbaijani => reveal_strlit("az"),
        Language::Belarusian => reveal_strlit("be"),
        Language::Bulgarian => reveal_strlit("bg"),
        Language::Bengali => reveal_strlit("bn"),
        Language::Bosnian => reveal_strlit("bs"),
        Language::Catalan => reveal_strlit("ca"),
        Language::Corsican => reveal_strlit("co"),
        Language::Czech => reveal_strlit("cs"),
        Language::Welsh => reveal_strlit("cy"),
        Language::Danish => reveal_strlit("da"),
        Language::German => reveal_strlit("de"),
        Language::Greek => reveal_strlit("el"),
        Language::English => reveal_strlit("en"),
        Language::Esperanto => reveal_strlit("eo"),
        Language::Spanish => reveal_strlit("es"),
        Language::Estonian => reveal_strlit("et"),
        Language::Basque => reveal_strlit("eu"),
        Language::Persian => reveal_strlit("fa"),
        Language::Finnish => reveal_strlit("fi"),
        Language::French => reveal_strlit("fr"),
        Language::WesternFrisian => reveal_strlit("fy"),
        Language::Irish => reveal_strlit("ga"),
        Language::ScottishGaelic => reveal_strlit("gd"),
        Language::Galician => reveal_strlit("gl"),
        Language::Gujarati => reveal_strlit("gu"),
        Language::Hausa => reveal_strlit("ha"),
        Language::Hebrew => reveal_strlit("he"),
        Language::Hindi => reveal_strlit("hi"),
        Language::Croatian => reveal_strlit("hr"),
        Language::HaitianCreole => reveal_strlit("ht"),
        Language::Hungarian => reveal_strlit("hu"),
        Language::Armenian => reveal_strlit("hy"),
        Language::Indonesian => reveal_strlit("id"),
        Language::Igbo => reveal_strlit("ig"),
        Language::Icelandic => reveal_strlit("is"),
        Language::Italian => reveal_strlit("it"),
        Language::Japanese => reveal_strlit("ja"),
        Language::Georgian => reveal_strlit("ka"),
        Language::Kazakh => reveal_strlit("kk"),
        Language::CentralKhmer => reveal_strlit("km"),
        Language::Kannada => reveal_strlit("kn"),
        Language::Korean => reveal_strlit("ko"),
        Language::Kurdish => reveal_strlit("ku"),
        Language::Kirghiz => reveal_strlit("ky"),
        Language::Latin => reveal_strlit("la"),
        Language::Luxembourgish => reveal_strlit("lb"),
        Language::Lao => reveal_strlit("lo"),
        Language::Lithuanian => reveal_strlit("lt"),
        Language::Latvian => reveal_strlit("lv"),
        Language::Malagasy => reveal_strlit("mg"),
        Language::Maori => reveal_strlit("mi"),
        Language::Macedonian => reveal_strlit("mk"),
        Language::Malayalam => reveal_strlit("ml"),
        Language::Mongolian => reveal_strlit("mn"),
        Language::Marathi => reveal_strlit("mr"),
        Language::Malay => reveal_strlit("ms"),
        Language::Maltese => reveal_strlit("mt"),
        Language::Burmese => reveal_strlit("my"),
        Language::Nepali => reveal_strlit("ne"),
        Language::Dutch => reveal_strlit("nl"),
        Language::Norwegian => reveal_strlit("no"),
        Language::Chichewa => reveal_strlit("ny"),
        Language::Oriya => reveal_strlit("or"),
        Language::Panjabi => reveal_strlit("pa"),
        Language::Polish => reveal_strlit("pl"),
        Language::Pushto => reveal_strlit("ps"),
        Language::Portuguese => reveal_strlit("pt"),
        Language::Romanian => reveal_strlit("ro"),
        Language::Russian => reveal_strlit("ru"),
        Language::Sindhi => reveal_strlit("sd"),
        Language::Sinhalese => reveal_strlit("si"),
        Language::Slovak => reveal_strlit("sk"),
        Language::Slovenian => reveal_strlit("sl"),
        Language::Samoan => reveal_strlit("sm"),
        Language::Shona => reveal_strlit("sn"),
        Language::Somali => reveal_strlit("so"),
        Language::Albanian => reveal_strlit("sq"),
        Language::Serbian => reveal_strlit("sr"),
        Language::SothoSouthern => reveal_strlit("st"),
        Language::Sundanese => reveal_strlit("su"),
        Language::Swedish => reveal_strlit("sv"),
        Language::Swahili => reveal_strlit("sw"),
        Language::Tamil => reveal_strlit("ta"),
        Language::Telugu => reveal_strlit("te"),
        Language::Tajik => reveal_strlit("tg"),
        Language::Thai => reveal_strlit("th"),
        Language::Tagalog => reveal_strlit("tl"),
        Language::Turkish => reveal_strlit("tr"),
        Language::Uighur => reveal_strlit("ug"),
        Language::Ukrainian => reveal_strlit("uk"),
        Language::Urdu => reveal_strlit("ur"),
        Language::Uzbek => reveal_strlit("uz"),
        Language::Vietnamese => reveal_strlit("vi"),
        Language::Xhosa => reveal_strlit("xh"),
        Language::Yiddish => reveal_strlit("yi"),
        Language::Yoruba => reveal_strlit("yo"),
        Language::SimpleChinese => reveal_strlit("zh-CN"),
        Language::TraditionalChinese => reveal_strlit("zh-TW"),
        Language::Zulu => reveal_strlit("zu"),
    }
}

/// No two languages share a code: a code names one language, and
/// `Language::from` finds the very language whose `abbreviation` it was given.
pub proof fn lemma_code_names_one_language(first: Language, second: Language)
    requires
        first.code() == second.code(),
    ensures
        first == second,
{
    lemma_outlines(first);
    lemma_outlines(second);
}

/// `with_code` finds the language that has the code, and none where no
/// language has it.
pub proof fn lemma_with_code(code: Seq<char>)
    ensures
        forall|language: Language| #[trigger]
            language.code() == code ==> Language::with_code(code) == Some(language),
        Language::with_code(code) matches Some(language) ==> language.code() == code,
{
    assert forall|language: Language| #[trigger] language.code() == code implies Language::with_code(
        code,
    ) == Some(language) by {
        lemma_code_names_one_language(
            language,
            choose|other: Language| other.code() == code,
        );
    }
}

} // verus!
