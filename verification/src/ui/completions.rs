//! The completion popup and what taking a completion does to the input.

use vstd::prelude::*;
use vstd::utf8::{encode_utf8, is_char_boundary};

use crate::chars::{byte_len, byte_prefix, spec_byte_prefix};
use crate::protocol::types::CompletionItem;
use crate::state::config::{ChatColorsRgb, InputMode};
use crate::text::{chars_of, concat, owned, string_of};

verus! {

/// The completion popup.
#[derive(Debug, Clone)]
pub struct CompletionPopup {
    items: Vec<CompletionItem>,
    visible: bool,
    selected_index: usize,
    selected: Option<usize>,
    replace_from: Option<usize>,
    colors: ChatColorsRgb,
}

/// The view of the completion popup.
pub ghost struct CompletionView {
    pub items: Seq<CompletionItem>,
    pub visible: bool,
    pub selected_index: usize,
    pub selected: Option<usize>,
    pub replace_from: Option<usize>,
    pub colors: ChatColorsRgb,
}

impl View for CompletionPopup {
    type V = CompletionView;

    closed spec fn view(&self) -> CompletionView {
        CompletionView {
            items: self.items@,
            visible: self.visible,
            selected_index: self.selected_index,
            selected: self.selected,
            replace_from: self.replace_from,
            colors: self.colors,
        }
    }
}

/// Well-formed: where there are items, the chosen one is one of them.
pub open spec fn spec_popup_wf(v: CompletionView) -> bool {
    v.items.len() > 0 ==> v.selected_index < v.items.len()
}

impl CompletionPopup {
    /// A hidden, empty popup.
    pub fn new(colors: ChatColorsRgb) -> (r: Self)
        ensures
            spec_popup_wf(r@),
            r@ == (CompletionView { items: Seq::empty(), visible: false, selected_index: 0, selected: None, replace_from: None, colors }),
    {
        let r = CompletionPopup { items: Vec::new(), visible: false, selected_index: 0, selected: None, replace_from: None, colors };
        assert(r@.items =~= Seq::<CompletionItem>::empty());
        r
    }

    /// Show the given items, the first one chosen; the popup is visible only
    /// when there are some. A completion replaces the input from byte
    /// `replace_from`.
    pub fn show(&mut self, items: Vec<CompletionItem>, replace_from: Option<usize>)
        ensures
            spec_popup_wf(final(self)@),
            final(self)@ == (CompletionView {
                items: items@,
                visible: items@.len() > 0,
                selected_index: 0,
                selected: Some(0),
                replace_from,
                colors: old(self)@.colors,
            }),
    {
        self.items = items;
        self.replace_from = replace_from;
        self.selected_index = 0;
        self.selected = Some(0);
        self.visible = self.items.len() > 0;
    }

    /// Hide the popup and forget its items.
    pub fn close(&mut self)
        ensures
            spec_popup_wf(final(self)@),
            final(self)@ == (CompletionView {
                items: Seq::empty(),
                visible: false,
                replace_from: None,
                selected: None,
                ..old(self)@
            }),
    {
        self.visible = false;
        self.items.clear();
        self.replace_from = None;
        self.selected = None;
    }

    pub fn is_visible(&self) -> (r: bool)
        ensures
            r == self@.visible,
    {
        self.visible
    }

    pub fn replace_from(&self) -> (r: Option<usize>)
        ensures
            r == self@.replace_from,
    {
        self.replace_from
    }

    pub fn selected_index(&self) -> (r: usize)
        ensures
            r == self@.selected_index,
    {
        self.selected_index
    }

    /// The items.
    pub fn items(&self) -> (r: &[CompletionItem])
        ensures
            r@ == self@.items,
    {
        self.items.as_slice()
    }

    pub fn colors(&self) -> (r: ChatColorsRgb)
        ensures
            r == self@.colors,
    {
        self.colors
    }

    /// The chosen item, while the popup is visible.
    pub fn selected_item(&self) -> (r: Option<&CompletionItem>)
        ensures
            (self@.visible && self@.selected_index < self@.items.len()) ==> (r matches Some(i) && *i == self@.items[self@.selected_index as int]),
            !(self@.visible && self@.selected_index < self@.items.len()) ==> r is None,
    {
        if self.visible && self.selected_index < self.items.len() {
            Some(&self.items[self.selected_index])
        } else {
            None
        }
    }

    /// Choose the next item, going round.
    pub fn select_next(&mut self)
        requires
            spec_popup_wf(old(self)@),
        ensures
            spec_popup_wf(final(self)@),
            old(self)@.items.len() > 0 ==> ({
                let i = ((old(self)@.selected_index + 1) % (old(self)@.items.len() as int)) as usize;
                final(self)@ == (CompletionView { selected_index: i, selected: Some(i), ..old(self)@ })
            }),
            old(self)@.items.len() == 0 ==> final(self)@ == old(self)@,
    {
        if self.items.len() > 0 {
            self.selected_index = (self.selected_index + 1) % self.items.len();
            self.selected = Some(self.selected_index);
        }
    }

    /// Choose the previous item, going round.
    pub fn select_prev(&mut self)
        requires
            spec_popup_wf(old(self)@),
        ensures
            spec_popup_wf(final(self)@),
            old(self)@.items.len() > 0 ==> ({
                let i = if old(self)@.selected_index == 0 { (old(self)@.items.len() - 1) as usize } else { (old(self)@.selected_index - 1) as usize };
                final(self)@ == (CompletionView { selected_index: i, selected: Some(i), ..old(self)@ })
            }),
            old(self)@.items.len() == 0 ==> final(self)@ == old(self)@,
    {
        if self.items.len() > 0 {
            if self.selected_index == 0 {
                self.selected_index = self.items.len() - 1;
            } else {
                self.selected_index = self.selected_index - 1;
            }
            self.selected = Some(self.selected_index);
        }
    }

    /// The row text of item `i`: a marker for the chosen item, the item's
    /// label, and its description where it has one.
    pub fn item_label(&self, i: usize) -> (r: String)
        requires
            i < self@.items.len(),
        ensures
            r@ == spec_item_label(self@.items[i as int], i == self@.selected_index),
    {
        let item = &self.items[i];
        let prefix = if i == self.selected_index { "> " } else { "  " };
        let a = concat(prefix, item.display.as_str());
        match &item.meta {
            Some(d) => {
                let b = concat(a.as_str(), "- ");
                concat(b.as_str(), d.as_str())
            },
            None => a,
        }
    }
}

/// The row text of an item.
pub open spec fn spec_item_label(item: CompletionItem, chosen: bool) -> Seq<char> {
    (if chosen { "> "@ } else { "  "@ }) + item.display@ + match item.meta {
        Some(d) => "- "@ + d@,
        None => Seq::empty(),
    }
}

/// The text a completion puts in place: the item's text, without its
/// leading `/` in command mode (where the input holds no slash).
pub open spec fn spec_completion_text(text: Seq<char>, mode: InputMode) -> Seq<char> {
    if mode == InputMode::Command && text.len() > 0 && text[0] == '/' {
        text.drop_first()
    } else {
        text
    }
}

/// The input after taking a completion: the input up to byte `replace_from`
/// (or all of it when shorter), followed by the completion's text.
pub open spec fn spec_apply_completion(input: Seq<char>, replace_from: Option<usize>, text: Seq<char>, mode: InputMode) -> Seq<char> {
    let from = match replace_from { Some(n) => n as int, None => 0 };
    let cut = if from < encode_utf8(input).len() { from } else { encode_utf8(input).len() as int };
    spec_byte_prefix(input, cut) + spec_completion_text(text, mode)
}

/// Whether the input can be cut where a completion replaces it.
pub open spec fn spec_completion_cut_ok(input: Seq<char>, replace_from: Option<usize>) -> bool {
    let from = match replace_from { Some(n) => n as int, None => 0 };
    from < encode_utf8(input).len() ==> is_char_boundary(encode_utf8(input), from)
}

/// The input after taking a completion.
pub fn apply_completion(input: &str, replace_from: Option<usize>, text: &str, mode: InputMode) -> (r: String)
    requires
        spec_completion_cut_ok(input@, replace_from),
    ensures
        r@ == spec_apply_completion(input@, replace_from, text@, mode),
{
    let from = match replace_from {
        Some(n) => n,
        None => 0,
    };
    let len = byte_len(input);
    let cut = if from < len { from } else { len };
    proof {
        vstd::utf8::encode_utf8_valid_utf8(input@);
        vstd::utf8::is_char_boundary_start_end_of_seq(encode_utf8(input@));
    }
    let head = byte_prefix(input, cut);
    let tv = chars_of(text);
    let tail = if mode == InputMode::Command && tv.len() > 0 && tv[0] == '/' {
        let rest = crate::chars::copy_range(tv.as_slice(), 1, tv.len());
        proof {
            assert(rest@ =~= text@.drop_first());
        }
        string_of(rest.as_slice())
    } else {
        owned(text)
    };
    concat(head, tail.as_str())
}


/// Choosing the next item and then the previous one returns to the item
/// chosen before, whenever the popup has items.
pub proof fn lemma_next_then_prev(selected: usize, len: nat)
    requires
        selected < len,
        len <= usize::MAX,
    ensures
        ({
            let next = ((selected + 1) % (len as int)) as usize;
            (if next == 0 { (len - 1) as usize } else { (next - 1) as usize }) == selected
        }),
{
    let n = len as int;
    let k = selected + 1;
    if k < n {
        vstd::arithmetic::div_mod::lemma_small_mod(k as nat, n as nat);
    } else {
        assert(k == n);
        vstd::arithmetic::div_mod::lemma_mod_self_0(n);
    }
}

} // verus!
