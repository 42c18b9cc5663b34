//! The content of the message cards ("embeds") the bot answers with.

use vstd::prelude::*;

verus! {

/// A colour as red, green and blue components.
#[derive(Debug, Clone, Copy, PartialEq, Eq)]
pub struct Rgb {
    pub red: u8,
    pub green: u8,
    pub blue: u8,
}

/// The author line of an embed: a name and an icon.
#[derive(Debug, Clone, PartialEq, Eq)]
pub struct EmbedAuthor {
    pub name: String,
    pub icon_url: String,
}

/// A message card: optional title, body text, side colour, optional author
/// line and optional thumbnail image.
#[derive(Debug, Clone, PartialEq, Eq)]
pub struct Embed {
    pub title: Option<String>,
    pub description: String,
    pub color: Rgb,
    pub author: Option<EmbedAuthor>,
    pub thumbnail: Option<String>,
}

/// The bot's colour, rgb(34, 255, 253).
pub open spec fn spec_brand_color() -> Rgb {
    Rgb { red: 34, green: 255, blue: 253 }
}

/// The colour of error cards, rgb(231, 76, 60).
pub open spec fn spec_error_color() -> Rgb {
    Rgb { red: 231, green: 76, blue: 60 }
}

/// The bot's colour, rgb(34, 255, 253).
pub fn brand_color() -> (c: Rgb)
    ensures
        c == spec_brand_color(),
{
    Rgb { red: 34, green: 255, blue: 253 }
}

/// The colour of error cards, rgb(231, 76, 60).
pub fn error_color() -> (c: Rgb)
    ensures
        c == spec_error_color(),
{
    Rgb { red: 231, green: 76, blue: 60 }
}

/// A card in the bot's colour that holds only a line of text.
pub fn notice(text: &str) -> (e: Embed)
    ensures
        e.title is None,
        e.description@ == text@,
        e.color == spec_brand_color(),
        e.author is None,
        e.thumbnail is None,
{
    Embed {
        title: None,
        description: String::from_str(text),
        color: brand_color(),
        author: None,
        thumbnail: None,
    }
}

} // verus!
