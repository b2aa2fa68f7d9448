use crate::cursor::CardCursor;
use crate::data::{CardModel, LearningDirection, VocabularyCard};
use crate::text::{decimal, render_decimal};
use vstd::prelude::*;
use vstd::string::*;

verus! {

/// The text of the progress chip: the one-based position, a slash and the
/// number of cards; with a stage, the stage follows in brackets.
pub open spec fn progress_text(index: usize, count: usize, stage: Option<u32>) -> Seq<char> {
    let plain = decimal((index + 1) as nat) + " / "@ + decimal(count as nat);
    match stage {
        Some(number) => plain + " (Stage "@ + decimal(number as nat) + ")"@,
        None => plain,
    }
}

/// The glyph of the favorite toggle: a filled star on a starred card, a
/// hollow one on any other.
pub open spec fn star_text(is_favorite: bool) -> Seq<char> {
    if is_favorite {
        "⭐"@
    } else {
        "☆"@
    }
}

/// What a card view shows.
#[derive(Debug, Clone, PartialEq, Eq)]
pub struct CardPanel {
    /// The progress chip.
    pub progress: String,
    /// The glyph of the favorite toggle.
    pub star: &'static str,
    /// The heading: the word in the source language.
    pub heading: String,
    /// The voice that reads the source side aloud.
    pub source_voice: &'static str,
    /// The voice that reads the target side aloud.
    pub target_voice: &'static str,
    /// The example sentence of the source side once it is revealed; until
    /// then the button that reveals it stands in its place.
    pub example: Option<String>,
    /// The word and the example sentence of the target side once they are
    /// revealed; until then the button that reveals them stands in their
    /// place.
    pub translation: Option<(String, String)>,
}

/// A card panel, as plain values.
pub ghost struct PanelModel {
    pub progress: Seq<char>,
    pub star: Seq<char>,
    pub heading: Seq<char>,
    pub source_voice: Seq<char>,
    pub target_voice: Seq<char>,
    pub example: Option<Seq<char>>,
    pub translation: Option<(Seq<char>, Seq<char>)>,
}

impl View for CardPanel {
    type V = PanelModel;

    open spec fn view(&self) -> PanelModel {
        PanelModel {
            progress: self.progress@,
            star: self.star@,
            heading: self.heading@,
            source_voice: self.source_voice@,
            target_voice: self.target_voice@,
            example: match self.example {
                Some(text) => Some(text@),
                None => None,
            },
            translation: match self.translation {
                Some(pair) => Some((pair.0@, pair.1@)),
                None => None,
            },
        }
    }
}

/// The panel of a pair of cards under a cursor.
pub open spec fn panel_of(
    source: CardModel,
    target: CardModel,
    cursor: CardCursor,
    card_count: usize,
    is_favorite: bool,
    direction: LearningDirection,
    stage: Option<u32>,
) -> PanelModel {
    PanelModel {
        progress: progress_text(cursor.index, card_count, stage),
        star: star_text(is_favorite),
        heading: source.word,
        source_voice: direction.source().speech_tag_text(),
        target_voice: direction.target().speech_tag_text(),
        example: if cursor.example_shown {
            Some(source.example)
        } else {
            None
        },
        translation: if cursor.translation_shown {
            Some((target.word, target.example))
        } else {
            None
        },
    }
}

/// The text of the progress chip of a card.
pub fn progress_label(index: usize, count: usize, stage: Option<u32>) -> (text: String)
    ensures
        text@ == progress_text(index, count, stage),
{
    let mut text = render_decimal(index as u128 + 1);
    text.append(" / ");
    let total = render_decimal(count as u128);
    text.append(total.as_str());
    match stage {
        Some(number) => {
            text.append(" (Stage ");
            let name = render_decimal(number as u128);
            text.append(name.as_str());
            text.append(")");
        },
        None => {},
    }
    text
}

/// The glyph of the favorite toggle.
pub fn star_glyph(is_favorite: bool) -> (glyph: &'static str)
    ensures
        glyph@ == star_text(is_favorite),
{
    if is_favorite {
        "⭐"
    } else {
        "☆"
    }
}

/// Lays out the card view for a pair of cards: progress chip, star,
/// heading and voices, and of example and translation what the reveal
/// flags of the cursor let through.
pub fn compose_panel(
    source: &VocabularyCard,
    target: &VocabularyCard,
    cursor: &CardCursor,
    card_count: usize,
    is_favorite: bool,
    direction: LearningDirection,
    stage: Option<u32>,
) -> (panel: CardPanel)
    ensures
        panel@ == panel_of(source@, target@, *cursor, card_count, is_favorite, direction, stage),
{
    let example = if cursor.example_shown {
        Some(source.example.clone())
    } else {
        None
    };
    let translation = if cursor.translation_shown {
        Some((target.word.clone(), target.example.clone()))
    } else {
        None
    };
    CardPanel {
        progress: progress_label(cursor.index, card_count, stage),
        star: star_glyph(is_favorite),
        heading: source.word.clone(),
        source_voice: direction.source_language().speech_tag(),
        target_voice: direction.target_language().speech_tag(),
        example,
        translation,
    }
}

} // verus!
