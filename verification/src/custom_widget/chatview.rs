//! The decisions of the chat view widget: what the edit box holds after a
//! frame, and what is submitted when Enter is pressed, in an enabled or a
//! disabled view.

use vstd::prelude::*;

verus! {

/// The widget identifiers of the parts of the chat view.
pub struct Ids {
    pub chat_canvas: conrod_core::widget::Id,
    pub message_panel: conrod_core::widget::Id,
    pub history_list: conrod_core::widget::Id,
    pub text_edit_body: conrod_core::widget::Id,
    pub text_edit_panel: conrod_core::widget::Id,
    pub text_edit_panel_scrollbar: conrod_core::widget::Id,
    pub text_edit: conrod_core::widget::Id,
    pub text_edit_button_panel: conrod_core::widget::Id,
    pub text_edit_button: conrod_core::widget::Id,
}

/// The unique, cached state of the chat view widget.
pub struct State {
    pub ids: Ids,
}

/// The text of the edit box after the edits of one frame: each edit replaces
/// the whole text, so the last one stands; with no edit the text is unchanged.
pub open spec fn edited_text(current: Seq<char>, edits: Seq<Seq<char>>) -> Seq<char> {
    if edits.len() == 0 {
        current
    } else {
        edits.last()
    }
}

/// The views of a list of strings.
pub open spec fn texts(edits: Seq<String>) -> Seq<Seq<char>> {
    edits.map_values(|s: String| s@)
}

/// Applies one frame to the edit box: the edits the text editor reported, then
/// the Enter button. A disabled view ignores user input: the box keeps its text
/// and nothing is entered. In an enabled view, when Enter was clicked the edited
/// text is handed back for sending and the box is emptied; otherwise the box
/// keeps the edited text.
pub fn update_text(text: &mut String, edits: Vec<String>, enter_clicked: bool, enabled: bool) -> (entered: Option<String>)
    ensures
        !enabled ==> entered is None && final(text)@ == old(text)@,
        enabled && enter_clicked ==> (entered matches Some(s) && s@ == edited_text(old(text)@, texts(edits@))),
        enabled && enter_clicked ==> final(text)@ == Seq::<char>::empty(),
        enabled && !enter_clicked ==> entered is None && final(text)@ == edited_text(old(text)@, texts(edits@)),
        enabled && !enter_clicked && edits@.len() > 0 ==> final(text)@ == edits@.last()@,
        enabled && !enter_clicked && edits@.len() == 0 ==> final(text)@ == old(text)@,
        enabled && enter_clicked && edits@.len() > 0 ==> (entered matches Some(s) && s@ == edits@.last()@),
        enabled && enter_clicked && edits@.len() == 0 ==> (entered matches Some(s) && s@ == old(text)@),
{
    proof {
        if edits@.len() > 0 {
            last_edit_stands(old(text)@, texts(edits@).drop_last(), edits@.last()@);
            assert(texts(edits@).drop_last().push(edits@.last()@) =~= texts(edits@));
        } else {
            no_edit_keeps_text(old(text)@);
            assert(texts(edits@) =~= Seq::<Seq<char>>::empty());
        }
    }
    if !enabled {
        return None;
    }
    let mut edits = edits;
    match edits.pop() {
        Some(last) => {
            *text = last;
        },
        None => {},
    }
    if enter_clicked {
        let mut entered = String::new();
        std::mem::swap(&mut entered, text);
        Some(entered)
    } else {
        None
    }
}

/// After a frame with at least one edit, the box holds the frame's last edit
/// exactly, character for character, whatever it is, the empty text included;
/// the edits before it do not matter.
pub proof fn last_edit_stands(current: Seq<char>, earlier: Seq<Seq<char>>, last: Seq<char>)
    ensures
        edited_text(current, earlier.push(last)) == last,
        edited_text(current, earlier.push(last)).len() == last.len(),
{
}

/// A frame without edits leaves the box as it was.
pub proof fn no_edit_keeps_text(current: Seq<char>)
    ensures
        edited_text(current, Seq::<Seq<char>>::empty()) == current,
{
}

/// Two frames of edits leave the same text as one frame with both lists of
/// edits in turn.
pub proof fn edits_compose(current: Seq<char>, first: Seq<Seq<char>>, second: Seq<Seq<char>>)
    ensures
        edited_text(edited_text(current, first), second) == edited_text(current, first + second),
{
    if second.len() > 0 {
        assert((first + second).last() == second.last());
    }
}

} // verus!
