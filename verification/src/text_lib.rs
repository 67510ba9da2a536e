//! Localized labels: the languages, the titles, and the translator that
//! maps one to the other.
//!
//! The language is chosen once, from the locale tag that the system
//! reports. A tag outside the supported set selects the fallback table; no
//! tag at all selects English.

use crate::labels::{lookup, text};
use vstd::prelude::*;

verus! {

/// A supported display language.
#[derive(Debug, Clone, Copy, PartialEq, Eq, Structural)]
pub enum Language {
    EnglishUS,
    Russian,
    ChineseSimplified,
    ChineseTraditional,
    Spanish,
    French,
    German,
    Japanese,
    Korean,
    Portuguese,
    /// Any locale without a table of its own.
    Other,
}

/// A label of the user interface.
#[derive(Debug, Clone, Copy, PartialEq, Eq, Structural)]
pub enum Titles {
    Header,
    Subheader,
    Slider,
    SoundNotification,
    StartButton,
    AddMinutes,
    Help,
    TimerRunning,
    TimerPaused,
    TimerStopped,
}

/// The language that a locale tag selects. Tags are matched as written:
/// case and separator count.
pub open spec fn language_of_tag(tag: Seq<char>) -> Language {
    if tag == "en-US"@ {
        Language::EnglishUS
    } else if tag == "ru-RU"@ {
        Language::Russian
    } else if tag == "zh-CN"@ {
        Language::ChineseSimplified
    } else if tag == "zh-TW"@ {
        Language::ChineseTraditional
    } else if tag == "es-ES"@ {
        Language::Spanish
    } else if tag == "fr-FR"@ {
        Language::French
    } else if tag == "de-DE"@ {
        Language::German
    } else if tag == "ja-JP"@ {
        Language::Japanese
    } else if tag == "ko-KR"@ {
        Language::Korean
    } else if tag == "pt-BR"@ {
        Language::Portuguese
    } else {
        Language::Other
    }
}

/// `sys_locale::get_locale` returns the most preferred locale of the system
/// or the application as a BCP 47 tag, or nothing where it could obtain
/// none. It reads the process environment, so nothing is claimed of the
/// value: callers are verified for every outcome.
pub assume_specification[ sys_locale::get_locale ]() -> Option<String>;

/// Whether `tag` reads exactly `code`.
fn tag_is(tag: &String, code: &str) -> (same: bool)
    ensures
        same == (tag@ == code@),
{
    let code = String::from_str(code);
    *tag == code
}

impl Language {
    /// The language that the locale tag `tag` selects.
    pub fn from_tag(tag: &str) -> (lang: Language)
        ensures
            lang == language_of_tag(tag@),
    {
        let tag = String::from_str(tag);
        if tag_is(&tag, "en-US") {
            Language::EnglishUS
        } else if tag_is(&tag, "ru-RU") {
            Language::Russian
        } else if tag_is(&tag, "zh-CN") {
            Language::ChineseSimplified
        } else if tag_is(&tag, "zh-TW") {
            Language::ChineseTraditional
        } else if tag_is(&tag, "es-ES") {
            Language::Spanish
        } else if tag_is(&tag, "fr-FR") {
            Language::French
        } else if tag_is(&tag, "de-DE") {
            Language::German
        } else if tag_is(&tag, "ja-JP") {
            Language::Japanese
        } else if tag_is(&tag, "ko-KR") {
            Language::Korean
        } else if tag_is(&tag, "pt-BR") {
            Language::Portuguese
        } else {
            Language::Other
        }
    }

    /// The language for the outcome of a locale detection: English where
    /// it found nothing, else what the tag selects.
    pub fn from_locale(locale: Option<String>) -> (lang: Language)
        ensures
            lang == match locale {
                Some(tag) => language_of_tag(tag@),
                None => Language::EnglishUS,
            },
    {
        match locale {
            Some(tag) => Language::from_tag(tag.as_str()),
            None => Language::EnglishUS,
        }
    }

    /// The language of the system, as far as it can be told.
    ///
    /// Asks the system for its preferred locale and maps the answer with
    /// [`Language::from_locale`]. The answer depends on the machine, so the
    /// result is not tied to anything here.
    pub fn detect() -> Language {
        Language::from_locale(sys_locale::get_locale())
    }
}

/// Maps titles to their text in one language.
#[derive(Debug, Clone, Copy)]
pub struct Translator {
    lang: Language,
}

impl View for Translator {
    type V = Language;

    closed spec fn view(&self) -> Language {
        self.lang
    }
}

impl Translator {
    /// A translator into `lang`.
    pub fn new(lang: Language) -> (translator: Self)
        ensures
            translator@ == lang,
    {
        Translator { lang }
    }

    /// The text of `key` in this translator's language.
    pub fn translate(&self, key: Titles) -> (s: &'static str)
        ensures
            s@ == text(self@, key),
    {
        lookup(self.lang, key)
    }
}

impl Default for Translator {
    /// A translator into the language of the system: see [`Language::detect`].
    fn default() -> Self {
        Self::new(Language::detect())
    }
}

/// Each supported tag selects its own language.
pub proof fn lemma_supported_tags()
    ensures
        language_of_tag("en-US"@) == Language::EnglishUS,
        language_of_tag("ru-RU"@) == Language::Russian,
        language_of_tag("zh-CN"@) == Language::ChineseSimplified,
        language_of_tag("zh-TW"@) == Language::ChineseTraditional,
        language_of_tag("es-ES"@) == Language::Spanish,
        language_of_tag("fr-FR"@) == Language::French,
        language_of_tag("de-DE"@) == Language::German,
        language_of_tag("ja-JP"@) == Language::Japanese,
        language_of_tag("ko-KR"@) == Language::Korean,
        language_of_tag("pt-BR"@) == Language::Portuguese,
{
    reveal_strlit("en-US");
    reveal_strlit("ru-RU");
    reveal_strlit("zh-CN");
    reveal_strlit("zh-TW");
    reveal_strlit("es-ES");
    reveal_strlit("fr-FR");
    reveal_strlit("de-DE");
    reveal_strlit("ja-JP");
    reveal_strlit("ko-KR");
    reveal_strlit("pt-BR");
    assert("en-US"@[0] == 'e' && "en-US"@[1] == 'n');
    assert("ru-RU"@[0] == 'r');
    assert("zh-CN"@[0] == 'z' && "zh-CN"@[3] == 'C');
    assert("zh-TW"@[0] == 'z' && "zh-TW"@[3] == 'T');
    assert("es-ES"@[0] == 'e' && "es-ES"@[1] == 's');
    assert("fr-FR"@[0] == 'f');
    assert("de-DE"@[0] == 'd');
    assert("ja-JP"@[0] == 'j');
    assert("ko-KR"@[0] == 'k');
    assert("pt-BR"@[0] == 'p');
}

} // verus!
