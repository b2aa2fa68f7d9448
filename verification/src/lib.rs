//! Learning-session model of a Spanish/English vocabulary trainer: the card
//! corpus, the favorites registry, the card cursor with its reveal flags, the
//! learning direction and the mapping from a URL to the state of a view.

pub mod language;
pub mod text;
pub mod data;
pub mod favorites;
pub mod cursor;
pub mod direction;
pub mod favorites_view;
pub mod stage_view;
pub mod card_view;
pub mod route;
pub mod convention;
