//! The decisions of the widget that draws one history entry: the caption
//! shown before the text, and the font the text is set in.

use vstd::prelude::*;
use vstd::string::StringExecFns;

verus! {

/// A font handle from conrod's font map, carried through unchanged.
#[verifier::external_type_specification]
#[verifier::external_body]
pub struct ExFontId(conrod_core::text::font::Id);

/// The widget identifiers of the parts of one history entry.
pub struct Ids {
    pub display_pic: conrod_core::widget::Id,
    pub name: conrod_core::widget::Id,
    pub text: conrod_core::widget::Id,
    pub rect: conrod_core::widget::Id,
    pub scrollbar: conrod_core::widget::Id,
}

/// The unique, cached state of a history entry widget.
pub struct State {
    pub ids: Ids,
}

/// The caption written beside the sender's picture: the name followed by `": "`.
pub open spec fn caption(name: Seq<char>) -> Seq<char> {
    name + ": "@
}

/// Builds the caption of a history entry from the sender's name.
pub fn name_label(name: &str) -> (label: String)
    ensures
        label@ == caption(name@),
        label@.len() == name@.len() + 2,
        label@.subrange(0, name@.len() as int) == name@,
        label@[name@.len() as int] == ':',
        label@[name@.len() + 1int] == ' ',
{
    let mut z = name.to_owned();
    z.append(": ");
    proof {
        caption_is_whole_name_then_colon_space(name@);
    }
    z
}

/// The caption keeps the whole name, whatever its length or content, and adds
/// exactly a colon and a space after it.
pub proof fn caption_is_whole_name_then_colon_space(name: Seq<char>)
    ensures
        caption(name).len() == name.len() + 2,
        caption(name).subrange(0, name.len() as int) == name,
        caption(name)[name.len() as int] == ':',
        caption(name)[name.len() + 1int] == ' ',
{
    reveal_strlit(": ");
    assert(caption(name).subrange(0, name.len() as int) =~= name);
}

/// The font of the entry's text: the one the style names, else the first id
/// that the user interface's font map yields, if any.
pub fn text_font(
    styled: Option<conrod_core::text::font::Id>,
    first_loaded: Option<conrod_core::text::font::Id>,
) -> (font: Option<conrod_core::text::font::Id>)
    ensures
        font == (match styled {
            Some(f) => Some(f),
            None => first_loaded,
        }),
{
    match styled {
        Some(f) => Some(f),
        None => first_loaded,
    }
}

} // verus!
