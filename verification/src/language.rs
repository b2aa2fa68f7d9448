use vstd::prelude::*;

verus! {

/// A language that can be learned or used for the interface.
#[derive(Debug, Clone, Copy, PartialEq, Eq, Hash, Structural)]
pub enum Language {
    Spanish,
    English,
}

/// The language being learned.
pub const LEARNING_LANGUAGE: Language = Language::Spanish;

/// The language of the interface and of the instructions.
pub const UI_LANGUAGE: Language = Language::English;

impl Language {
    /// The name of the language in English.
    pub open spec fn display_name_text(self) -> Seq<char> {
        match self {
            Language::Spanish => "Spanish"@,
            Language::English => "English"@,
        }
    }

    /// The name of the language in the language itself.
    pub open spec fn native_name_text(self) -> Seq<char> {
        match self {
            Language::Spanish => "Español"@,
            Language::English => "English"@,
        }
    }

    /// The flag shown for the language.
    pub open spec fn flag_text(self) -> Seq<char> {
        match self {
            Language::Spanish => "🇪🇸"@,
            Language::English => "🇺🇸"@,
        }
    }

    /// The two-letter code under which the corpus files a language.
    pub open spec fn code_text(self) -> Seq<char> {
        match self {
            Language::Spanish => "es"@,
            Language::English => "en"@,
        }
    }

    /// The BCP 47 tag handed to the speech synthesizer.
    pub open spec fn speech_tag_text(self) -> Seq<char> {
        match self {
            Language::Spanish => "es-ES"@,
            Language::English => "en-US"@,
        }
    }

    /// Display name in English.
    pub fn display_name(&self) -> (name: &'static str)
        ensures
            name@ == self.display_name_text(),
    {
        match self {
            Language::Spanish => "Spanish",
            Language::English => "English",
        }
    }

    /// Native name of the language.
    pub fn native_name(&self) -> (name: &'static str)
        ensures
            name@ == self.native_name_text(),
    {
        match self {
            Language::Spanish => "Español",
            Language::English => "English",
        }
    }

    /// Flag emoji representation.
    pub fn flag_emoji(&self) -> (flag: &'static str)
        ensures
            flag@ == self.flag_text(),
    {
        match self {
            Language::Spanish => "🇪🇸",
            Language::English => "🇺🇸",
        }
    }

    /// Code of the language in the corpus: `es` or `en`.
    pub fn code(&self) -> (code: &'static str)
        ensures
            code@ == self.code_text(),
    {
        match self {
            Language::Spanish => "es",
            Language::English => "en",
        }
    }

    /// Tag of the voice that reads the language aloud: `es-ES` or `en-US`.
    pub fn speech_tag(&self) -> (tag: &'static str)
        ensures
            tag@ == self.speech_tag_text(),
    {
        match self {
            Language::Spanish => "es-ES",
            Language::English => "en-US",
        }
    }
}

} // verus!
