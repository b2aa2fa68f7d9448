use crate::data::{Corpus, LearningDirection};
use crate::language::Language;
use crate::text::{decimal, render_decimal, same_text, text_of};
use vstd::prelude::*;
use vstd::string::*;

verus! {

/// The direction that a value of the `dir` query parameter selects:
/// `en-to-es` selects English to Spanish; any other value, and the absence
/// of the parameter, selects Spanish to English.
pub open spec fn direction_of_query(dir: Option<Seq<char>>) -> LearningDirection {
    if dir == Some("en-to-es"@) {
        LearningDirection::EnglishToSpanish
    } else {
        LearningDirection::SpanishToEnglish
    }
}

/// The link to the stage index in a direction.
pub open spec fn stage_index_href(direction: LearningDirection) -> Seq<char> {
    "/vocabulary?dir="@ + direction.query_text()
}

/// The link to the cards of a stage in a direction.
pub open spec fn stage_href(stage: u32, direction: LearningDirection) -> Seq<char> {
    "/vocabulary/"@ + decimal(stage as nat) + "?dir="@ + direction.query_text()
}

/// The link to the favorites view in a direction.
pub open spec fn favorites_href(direction: LearningDirection) -> Seq<char> {
    "/vocabulary/favorites?dir="@ + direction.query_text()
}

impl LearningDirection {
    /// The value of the `dir` query parameter that stands for the direction.
    pub open spec fn query_text(self) -> Seq<char> {
        match self {
            LearningDirection::SpanishToEnglish => "es-to-en"@,
            LearningDirection::EnglishToSpanish => "en-to-es"@,
        }
    }

    /// The opposite direction.
    pub open spec fn opposite(self) -> LearningDirection {
        match self {
            LearningDirection::SpanishToEnglish => LearningDirection::EnglishToSpanish,
            LearningDirection::EnglishToSpanish => LearningDirection::SpanishToEnglish,
        }
    }

    /// The text on the direction toggle: the flag of the source language, an
    /// arrow, the flag of the target language.
    pub open spec fn label_text(self) -> Seq<char> {
        match self {
            LearningDirection::SpanishToEnglish => "🇪🇸 → 🇬🇧"@,
            LearningDirection::EnglishToSpanish => "🇬🇧 → 🇪🇸"@,
        }
    }

    /// The language that is shown first.
    pub open spec fn source(self) -> Language {
        match self {
            LearningDirection::SpanishToEnglish => Language::Spanish,
            LearningDirection::EnglishToSpanish => Language::English,
        }
    }

    /// The language that is revealed.
    pub open spec fn target(self) -> Language {
        match self {
            LearningDirection::SpanishToEnglish => Language::English,
            LearningDirection::EnglishToSpanish => Language::Spanish,
        }
    }

    /// Reads the direction from the `dir` query parameter of a URL. An
    /// absent or unknown value means Spanish to English.
    pub fn from_query(dir: Option<&str>) -> (direction: LearningDirection)
        ensures
            direction == direction_of_query(text_of(dir)),
    {
        match dir {
            Some(value) => {
                if same_text(value, "en-to-es") {
                    LearningDirection::EnglishToSpanish
                } else {
                    LearningDirection::SpanishToEnglish
                }
            },
            None => LearningDirection::SpanishToEnglish,
        }
    }

    /// The value of the `dir` query parameter for this direction.
    pub fn query_value(self) -> (value: &'static str)
        ensures
            value@ == self.query_text(),
    {
        match self {
            LearningDirection::SpanishToEnglish => "es-to-en",
            LearningDirection::EnglishToSpanish => "en-to-es",
        }
    }

    /// The direction after the toggle was clicked.
    pub fn toggled(self) -> (direction: LearningDirection)
        ensures
            direction == self.opposite(),
    {
        match self {
            LearningDirection::SpanishToEnglish => LearningDirection::EnglishToSpanish,
            LearningDirection::EnglishToSpanish => LearningDirection::SpanishToEnglish,
        }
    }

    /// The text on the direction toggle.
    pub fn label(self) -> (text: &'static str)
        ensures
            text@ == self.label_text(),
    {
        match self {
            LearningDirection::SpanishToEnglish => "🇪🇸 → 🇬🇧",
            LearningDirection::EnglishToSpanish => "🇬🇧 → 🇪🇸",
        }
    }

    /// The language of the card that is shown first.
    pub fn source_language(self) -> (language: Language)
        ensures
            language == self.source(),
    {
        match self {
            LearningDirection::SpanishToEnglish => Language::Spanish,
            LearningDirection::EnglishToSpanish => Language::English,
        }
    }

    /// The language of the card that is revealed.
    pub fn target_language(self) -> (language: Language)
        ensures
            language == self.target(),
    {
        match self {
            LearningDirection::SpanishToEnglish => Language::English,
            LearningDirection::EnglishToSpanish => Language::Spanish,
        }
    }
}

/// The link to the stage index that keeps the direction.
pub fn stage_index_link(direction: LearningDirection) -> (href: String)
    ensures
        href@ == stage_index_href(direction),
{
    let mut href = String::from_str("/vocabulary?dir=");
    href.append(direction.query_value());
    href
}

/// The link that the direction toggle navigates to: the stage index in the
/// opposite direction.
pub fn toggle_link(direction: LearningDirection) -> (href: String)
    ensures
        href@ == stage_index_href(direction.opposite()),
        href@ == "/vocabulary?dir="@ + toggled_query(Some(direction.query_text())),
{
    proof {
        lemma_query_round_trip(direction);
    }
    stage_index_link(direction.toggled())
}

/// The link to the cards of a stage that keeps the direction.
pub fn stage_link(stage: u32, direction: LearningDirection) -> (href: String)
    ensures
        href@ == stage_href(stage, direction),
{
    let mut href = String::from_str("/vocabulary/");
    let number = render_decimal(stage as u128);
    href.append(number.as_str());
    href.append("?dir=");
    href.append(direction.query_value());
    href
}

/// The link to the favorites view that keeps the direction.
pub fn favorites_link(direction: LearningDirection) -> (href: String)
    ensures
        href@ == favorites_href(direction),
{
    let mut href = String::from_str("/vocabulary/favorites?dir=");
    href.append(direction.query_value());
    href
}

/// The links of the stage grid: one for each stage of the corpus, in
/// order from stage 1, each keeping the direction.
pub fn stage_links(corpus: &Corpus, direction: LearningDirection) -> (links: Vec<String>)
    ensures
        links@.len() == (if corpus@.len() <= u32::MAX {
            corpus@.len()
        } else {
            u32::MAX as nat
        }),
        forall|i: int| 0 <= i < links@.len() ==> (#[trigger] links@[i])@ == stage_href(
            (i + 1) as u32,
            direction,
        ),
{
    let stage_count: u32 = if corpus.stages.len() <= 0xFFFF_FFFF {
        corpus.stages.len() as u32
    } else {
        0xFFFF_FFFF
    };
    let mut links: Vec<String> = Vec::new();
    let mut stage: u32 = 0;
    while stage < stage_count
        invariant
            stage <= stage_count,
            links@.len() == stage,
            forall|i: int| 0 <= i < stage ==> (#[trigger] links@[i])@ == stage_href(
                (i + 1) as u32,
                direction,
            ),
        decreases stage_count - stage,
    {
        stage = stage + 1;
        links.push(stage_link(stage, direction));
    }
    links
}

/// The value of the `dir` query parameter in the link that the direction
/// toggle navigates to, on a page whose URL holds the value `dir`.
pub open spec fn toggled_query(dir: Option<Seq<char>>) -> Seq<char> {
    direction_of_query(dir).opposite().query_text()
}

/// The two values of the `dir` query parameter differ, so each direction
/// is read back from the value that stands for it.
pub proof fn lemma_query_round_trip(direction: LearningDirection)
    ensures
        direction_of_query(Some(direction.query_text())) == direction,
{
    reveal_strlit("es-to-en");
    reveal_strlit("en-to-es");
    assert("es-to-en"@[1] == 's');
    assert("en-to-es"@[1] == 'n');
}

/// Toggling the direction twice leads back to the `dir` query value of the
/// direction that the first page showed: to the very value of its URL where
/// that was `es-to-en` or `en-to-es`, and to `es-to-en` where it was absent
/// or anything else. One toggle always changes the direction.
pub proof fn lemma_toggle_twice_restores_query(dir: Option<Seq<char>>)
    ensures
        toggled_query(Some(toggled_query(dir))) == direction_of_query(dir).query_text(),
        direction_of_query(Some(toggled_query(dir))) == direction_of_query(dir).opposite(),
        direction_of_query(dir).opposite() != direction_of_query(dir),
        direction_of_query(dir).opposite().opposite() == direction_of_query(dir),
        dir == Some("es-to-en"@) || dir == Some("en-to-es"@) ==> Some(
            toggled_query(Some(toggled_query(dir))),
        ) == dir,
{
    lemma_query_round_trip(direction_of_query(dir).opposite());
    lemma_query_round_trip(LearningDirection::SpanishToEnglish);
}

} // verus!
