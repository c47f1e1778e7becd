//! The interactive list picker as a state machine: keys move a cursor,
//! choose, or cancel; the view is the text drawn for a state. Reading keys
//! and drawing the terminal are the caller's.

use vstd::prelude::*;

use crate::error::{texts, Error};
use crate::request::copy_strings;
use crate::text::{owned, push_str, str_eq};

verus! {

/// The picker's state.
#[derive(Debug, Clone)]
pub struct PickerModel {
    pub title: String,
    pub items: Vec<String>,
    /// Index of the highlighted item.
    pub cursor: usize,
    /// The chosen item; empty until one is chosen.
    pub choice: String,
    /// The user cancelled or chose.
    pub quitting: bool,
}

/// What the caller does after a key.
#[derive(Debug, Clone, Copy, PartialEq, Eq, Structural)]
pub enum PickerCommand {
    /// Keep reading keys.
    Continue,
    /// Stop: the picker is done.
    Quit,
}

/// A picker over `items`; there must be at least one.
pub fn run_picker(title: &str, items: &Vec<String>) -> (r: Result<PickerModel, Error>)
    ensures
        items.len() == 0 ==> (r matches Err(Error::Validation(m)) && m@ == "no items to pick from"@),
        items.len() > 0 ==> (r matches Ok(p) && p.title@ == title@ && texts(p.items@) == texts(items@)
            && p.cursor == 0 && p.choice@.len() == 0 && !p.quitting),
{
    if items.len() == 0 {
        return Err(Error::Validation(owned("no items to pick from")));
    }
    Ok(new_picker_model(title, items))
}

/// A picker over `items` with the first one highlighted.
pub fn new_picker_model(title: &str, items: &Vec<String>) -> (p: PickerModel)
    ensures
        p.title@ == title@,
        texts(p.items@) == texts(items@),
        p.cursor == 0,
        p.choice@.len() == 0,
        !p.quitting,
{
    PickerModel { title: owned(title), items: copy_strings(items), cursor: 0, choice: String::new(), quitting: false }
}

impl PickerModel {
    /// The picker starts without a command.
    pub fn init(&self) -> (r: PickerCommand)
        ensures
            r == PickerCommand::Continue,
    {
        PickerCommand::Continue
    }

    /// Handles one key: `ctrl+c`, `q`, `esc` cancel; `up`/`k` and
    /// `down`/`j` move the cursor within the list; `enter` chooses the
    /// highlighted item. Other keys change nothing.
    pub fn update(&mut self, key: &str) -> (r: PickerCommand)
        requires
            old(self).cursor < old(self).items.len(),
        ensures
            final(self).cursor < final(self).items.len(),
            final(self).title@ == old(self).title@,
            texts(final(self).items@) == texts(old(self).items@),
            key_class(key@) == KeyClass::Cancel ==> (r == PickerCommand::Quit && final(self).quitting
                && final(self).cursor == old(self).cursor && final(self).choice@ == old(self).choice@),
            key_class(key@) == KeyClass::Up ==> (r == PickerCommand::Continue && final(self).cursor == (if old(
                self,
            ).cursor > 0 {
                old(self).cursor - 1
            } else {
                0
            }) && final(self).quitting == old(self).quitting && final(self).choice@ == old(self).choice@),
            key_class(key@) == KeyClass::Down ==> (r == PickerCommand::Continue && final(self).cursor == (if old(
                self,
            ).cursor + 1 < old(self).items.len() {
                old(self).cursor + 1
            } else {
                old(self).cursor as int
            }) && final(self).quitting == old(self).quitting && final(self).choice@ == old(self).choice@),
            key_class(key@) == KeyClass::Enter ==> (r == PickerCommand::Quit && final(self).choice@ == old(
                self,
            ).items@[old(self).cursor as int]@ && final(self).cursor == old(self).cursor && final(self).quitting == old(
                self,
            ).quitting),
            key_class(key@) == KeyClass::Other ==> (r == PickerCommand::Continue && final(self).cursor == old(
                self,
            ).cursor && final(self).quitting == old(self).quitting && final(self).choice@ == old(self).choice@),
    {
        if str_eq(key, "ctrl+c") || str_eq(key, "q") || str_eq(key, "esc") {
            self.quitting = true;
            return PickerCommand::Quit;
        }
        if str_eq(key, "up") || str_eq(key, "k") {
            if self.cursor > 0 {
                self.cursor = self.cursor - 1;
            }
            return PickerCommand::Continue;
        }
        if str_eq(key, "down") || str_eq(key, "j") {
            if self.cursor + 1 < self.items.len() {
                self.cursor = self.cursor + 1;
            }
            return PickerCommand::Continue;
        }
        if str_eq(key, "enter") {
            self.choice = self.items[self.cursor].clone();
            return PickerCommand::Quit;
        }
        PickerCommand::Continue
    }

    /// The text drawn for the state: `Cancelled.` after a cancel, nothing
    /// after a choice, else the title, the items with the highlighted one
    /// marked `▸ `, and the key help.
    pub fn view(&self) -> (r: String)
        ensures
            r@ == view_text(self.title@, texts(self.items@), self.cursor as int, self.choice@, self.quitting),
    {
        if self.quitting && self.choice.as_str().is_empty() {
            return owned("Cancelled.\n");
        }
        if !self.choice.as_str().is_empty() {
            return String::new();
        }
        let mut s = owned(self.title.as_str());
        push_str(&mut s, "\n\n");
        let ghost head = s@;
        let mut i: usize = 0;
        proof {
            assert(texts(self.items@).subrange(0, 0) =~= Seq::<Seq<char>>::empty());
        }
        while i < self.items.len()
            invariant
                i <= self.items.len(),
                s@ == head + item_lines(texts(self.items@).subrange(0, i as int), self.cursor as int),
            decreases self.items.len() - i,
        {
            proof {
                let t = texts(self.items@).subrange(0, i + 1);
                assert(t.drop_last() =~= texts(self.items@).subrange(0, i as int));
                assert(t.last() == self.items@[i as int]@);
            }
            if i == self.cursor {
                push_str(&mut s, "▸ ");
            } else {
                push_str(&mut s, "  ");
            }
            push_str(&mut s, self.items[i].as_str());
            push_str(&mut s, "\n");
            i = i + 1;
        }
        proof {
            assert(texts(self.items@).subrange(0, i as int) =~= texts(self.items@));
        }
        push_str(&mut s, "\n↑/↓ navigate • enter select • q quit\n");
        s
    }
}

/// What a key does.
#[derive(PartialEq, Eq, Structural)]
pub enum KeyClass {
    Cancel,
    Up,
    Down,
    Enter,
    Other,
}

/// What a key does: `ctrl+c`, `q`, `esc` cancel; `up`, `k` move up;
/// `down`, `j` move down; `enter` chooses.
pub open spec fn key_class(key: Seq<char>) -> KeyClass {
    if key == "ctrl+c"@ || key == "q"@ || key == "esc"@ {
        KeyClass::Cancel
    } else if key == "up"@ || key == "k"@ {
        KeyClass::Up
    } else if key == "down"@ || key == "j"@ {
        KeyClass::Down
    } else if key == "enter"@ {
        KeyClass::Enter
    } else {
        KeyClass::Other
    }
}

/// One line per item, the one at `cursor` marked.
pub open spec fn item_lines(items: Seq<Seq<char>>, cursor: int) -> Seq<char>
    decreases items.len(),
{
    if items.len() == 0 {
        Seq::empty()
    } else {
        let i = items.len() - 1;
        item_lines(items.drop_last(), cursor) + (if i == cursor {
            "▸ "@
        } else {
            "  "@
        }) + items.last() + "\n"@
    }
}

/// The text drawn for a picker state.
pub open spec fn view_text(title: Seq<char>, items: Seq<Seq<char>>, cursor: int, choice: Seq<char>, quitting: bool) -> Seq<char> {
    if quitting && choice.len() == 0 {
        "Cancelled.\n"@
    } else if choice.len() > 0 {
        Seq::empty()
    } else {
        title + "\n\n"@ + item_lines(items, cursor) + "\n↑/↓ navigate • enter select • q quit\n"@
    }
}

} // verus!
