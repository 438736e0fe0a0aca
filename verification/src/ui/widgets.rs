//! UI widgets: what they hold and how keys change it. Drawing is done
//! elsewhere.

use crate::text::{chars_of, string_of, views};
use vstd::prelude::*;
use vstd::string::*;

verus! {

/// A selectable menu item
#[derive(Debug, Clone)]
pub struct MenuItem {
    pub label: String,
    pub description: Option<String>,
    pub enabled: bool,
}

impl MenuItem {
    /// An enabled item without description.
    pub fn new(label: &str) -> (r: Self)
        ensures
            r.label@ == label@,
            r.description is None,
            r.enabled,
    {
        MenuItem { label: String::from_str(label), description: None, enabled: true }
    }

    /// The same item with a description.
    pub fn with_description(self, desc: &str) -> (r: Self)
        ensures
            r.label == self.label,
            r.enabled == self.enabled,
            r.description matches Some(d) && d@ == desc@,
    {
        MenuItem {
            label: self.label,
            description: Some(String::from_str(desc)),
            enabled: self.enabled,
        }
    }

    /// The same item, which cannot be selected.
    pub fn disabled(self) -> (r: Self)
        ensures
            r.label == self.label,
            r.description == self.description,
            !r.enabled,
    {
        MenuItem { label: self.label, description: self.description, enabled: false }
    }
}

/// Which of `items` can be selected.
pub open spec fn enabled_flags(items: Seq<MenuItem>) -> Seq<bool> {
    items.map_values(|item: MenuItem| item.enabled)
}

/// The first position from `from` on whose flag is set; the length of
/// `flags` where there is none.
pub open spec fn first_set_from(flags: Seq<bool>, from: nat) -> nat
    decreases flags.len() - from,
{
    if from >= flags.len() {
        flags.len()
    } else if flags[from as int] {
        from
    } else {
        first_set_from(flags, from + 1)
    }
}

/// The last position up to `from` whose flag is set; 0 where there is
/// none.
pub open spec fn last_set_upto(flags: Seq<bool>, from: nat) -> nat
    decreases from,
{
    if from == 0 || (from < flags.len() && flags[from as int]) {
        from
    } else {
        last_set_upto(flags, (from - 1) as nat)
    }
}

/// The selection after moving down from `selected`: the next item that is
/// enabled, and the last item where none is. The last item is left by
/// nothing.
pub open spec fn selection_below(flags: Seq<bool>, selected: nat) -> nat {
    if selected + 1 < flags.len() {
        let found = first_set_from(flags, selected + 1);
        if found >= flags.len() {
            (flags.len() - 1) as nat
        } else {
            found
        }
    } else {
        selected
    }
}

/// The selection after moving up from `selected`: the item before that is
/// enabled, and the first item where none is.
pub open spec fn selection_above(flags: Seq<bool>, selected: nat) -> nat {
    if selected > 0 {
        last_set_upto(flags, (selected - 1) as nat)
    } else {
        selected
    }
}

/// A vertical menu widget
pub struct Menu {
    items: Vec<MenuItem>,
    selected: usize,
    y: u32,
    x: u32,
    width: u32,
}

impl Menu {
    #[verifier::type_invariant]
    spec fn inv(self) -> bool {
        self.selected == 0 || self.selected < self.items@.len()
    }

    /// The items of the menu.
    pub closed spec fn entries(&self) -> Seq<MenuItem> {
        self.items@
    }

    /// The position of the selected item.
    pub closed spec fn selection(&self) -> nat {
        self.selected as nat
    }

    /// Row, column and width of the menu on the screen.
    pub closed spec fn frame(&self) -> (u32, u32, u32) {
        (self.y, self.x, self.width)
    }

    /// A menu of `items` at row `y` and column `x`, with its first item
    /// selected.
    pub fn new(items: Vec<MenuItem>, y: u32, x: u32, width: u32) -> (r: Self)
        ensures
            r.entries() == items@,
            r.selection() == 0,
            r.frame() == (y, x, width),
    {
        Menu { items, selected: 0, y, x, width }
    }

    /// The position of the selected item.
    pub fn selected(&self) -> (r: usize)
        ensures
            r == self.selection(),
            r == 0 || r < self.entries().len(),
    {
        proof {
            use_type_invariant(self);
        }
        self.selected
    }

    /// The items of the menu.
    pub fn items(&self) -> (r: &Vec<MenuItem>)
        ensures
            r@ == self.entries(),
    {
        &self.items
    }

    /// Row, column and width of the menu on the screen.
    pub fn geometry(&self) -> (r: (u32, u32, u32))
        ensures
            r == self.frame(),
    {
        (self.y, self.x, self.width)
    }

    /// Moves the selection down to the next enabled item; from the last
    /// such item it moves to the last item.
    pub fn select_next(&mut self)
        ensures
            final(self).entries() == old(self).entries(),
            final(self).frame() == old(self).frame(),
            final(self).selection() == selection_below(
                enabled_flags(old(self).entries()),
                old(self).selection(),
            ),
    {
        proof {
            use_type_invariant(&*self);
        }
        let count = self.items.len();
        let ghost flags = enabled_flags(self.items@);
        if count > 0 && self.selected < count - 1 {
            let mut at: usize = self.selected + 1;
            while at < count && !self.items[at].enabled
                invariant
                    at <= count,
                    count == self.items@.len(),
                    flags == enabled_flags(self.items@),
                    first_set_from(flags, (self.selected + 1) as nat) == first_set_from(
                        flags,
                        at as nat,
                    ),
                decreases count - at,
            {
                at += 1;
            }
            if at >= count {
                at = count - 1;
            }
            self.selected = at;
        }
    }

    /// Moves the selection up to the enabled item before; from the first
    /// such item it moves to the first item.
    pub fn select_prev(&mut self)
        ensures
            final(self).entries() == old(self).entries(),
            final(self).frame() == old(self).frame(),
            final(self).selection() == selection_above(
                enabled_flags(old(self).entries()),
                old(self).selection(),
            ),
    {
        proof {
            use_type_invariant(&*self);
        }
        let ghost flags = enabled_flags(self.items@);
        if self.selected > 0 {
            let mut at: usize = self.selected - 1;
            while at > 0 && !self.items[at].enabled
                invariant
                    at < self.items@.len(),
                    flags == enabled_flags(self.items@),
                    last_set_upto(flags, (self.selected - 1) as nat) == last_set_upto(
                        flags,
                        at as nat,
                    ),
                decreases at,
            {
                at -= 1;
            }
            self.selected = at;
        }
    }
}

/// The positions of `checked` that are set, in ascending order.
pub open spec fn set_positions(checked: Seq<bool>) -> Seq<usize>
    decreases checked.len(),
{
    if checked.len() == 0 {
        Seq::empty()
    } else if checked.last() {
        set_positions(checked.drop_last()).push((checked.len() - 1) as usize)
    } else {
        set_positions(checked.drop_last())
    }
}

/// The first visible row after the selection moved down to `selected`:
/// the window of `height` rows follows the selection.
pub open spec fn offset_below(offset: nat, height: nat, selected: nat) -> nat {
    if selected >= offset + height {
        (selected + 1 - height) as nat
    } else {
        offset
    }
}

/// A checkbox list widget
pub struct CheckList {
    items: Vec<String>,
    checked: Vec<bool>,
    selected: usize,
    y: u32,
    x: u32,
    height: u32,
    scroll_offset: usize,
}

impl CheckList {
    #[verifier::type_invariant]
    spec fn inv(self) -> bool {
        &&& self.checked@.len() == self.items@.len()
        &&& (self.selected == 0 || self.selected < self.items@.len())
    }

    /// The labels of the list.
    pub closed spec fn labels(&self) -> Seq<Seq<char>> {
        views(self.items@)
    }

    /// Which items are checked.
    pub closed spec fn marks(&self) -> Seq<bool> {
        self.checked@
    }

    /// The position of the selected item.
    pub closed spec fn selection(&self) -> nat {
        self.selected as nat
    }

    /// The first visible row.
    pub closed spec fn offset(&self) -> nat {
        self.scroll_offset as nat
    }

    /// The number of visible rows.
    pub closed spec fn rows(&self) -> nat {
        self.height as nat
    }

    /// Row and column of the list on the screen.
    pub closed spec fn place(&self) -> (u32, u32) {
        (self.y, self.x)
    }

    /// A list of `items`, none of them checked, that shows `height` rows.
    pub fn new(items: Vec<String>, y: u32, x: u32, height: u32) -> (r: Self)
        ensures
            r.labels() == views(items@),
            r.marks().len() == items@.len(),
            forall|i: int| 0 <= i < r.marks().len() ==> !r.marks()[i],
            r.selection() == 0,
            r.offset() == 0,
            r.rows() == height,
            r.place() == (y, x),
    {
        let mut checked: Vec<bool> = Vec::new();
        let mut i: usize = 0;
        while i < items.len()
            invariant
                i <= items.len(),
                checked@.len() == i,
                forall|j: int| 0 <= j < i ==> !checked@[j],
            decreases items.len() - i,
        {
            checked.push(false);
            i += 1;
        }
        CheckList { items, checked, selected: 0, y, x, height, scroll_offset: 0 }
    }

    /// The position of the selected item: within the list, or 0 in an
    /// empty list. There is a check mark for every item.
    pub fn selected(&self) -> (r: usize)
        ensures
            r == self.selection(),
            r == 0 || r < self.labels().len(),
            self.marks().len() == self.labels().len(),
    {
        proof {
            use_type_invariant(self);
        }
        self.selected
    }

    /// The labels of the list. There is a check mark for every item.
    pub fn items(&self) -> (r: &Vec<String>)
        ensures
            views(r@) == self.labels(),
            r@.len() == self.labels().len(),
            self.marks().len() == self.labels().len(),
    {
        proof {
            use_type_invariant(self);
        }
        &self.items
    }

    /// Row and column of the list on the screen, its height, and its
    /// first visible row.
    pub fn geometry(&self) -> (r: (u32, u32, u32, usize))
        ensures
            (r.0, r.1) == self.place(),
            r.2 == self.rows(),
            r.3 == self.offset(),
    {
        (self.y, self.x, self.height, self.scroll_offset)
    }

    /// Whether the item at `index` is checked; no item outside the list
    /// is.
    pub fn is_checked(&self, index: usize) -> (r: bool)
        ensures
            r == (index < self.marks().len() && self.marks()[index as int]),
    {
        if index < self.checked.len() {
            self.checked[index]
        } else {
            false
        }
    }

    /// Checks the selected item, or unchecks it where it is checked.
    pub fn toggle_selected(&mut self)
        ensures
            final(self).place() == old(self).place(),
            final(self).rows() == old(self).rows(),
            final(self).labels() == old(self).labels(),
            final(self).selection() == old(self).selection(),
            final(self).offset() == old(self).offset(),
            final(self).marks() == if old(self).selection() < old(self).marks().len() {
                old(self).marks().update(
                    old(self).selection() as int,
                    !old(self).marks()[old(self).selection() as int],
                )
            } else {
                old(self).marks()
            },
    {
        proof {
            use_type_invariant(&*self);
        }
        if self.selected < self.checked.len() {
            let mut marks: Vec<bool> = Vec::new();
            let mut i: usize = 0;
            while i < self.checked.len()
                invariant
                    i <= self.checked.len(),
                    self.selected < self.checked.len(),
                    marks@.len() == i,
                    forall|j: int|
                        0 <= j < i ==> marks@[j] == if j == self.selected {
                            !self.checked@[j]
                        } else {
                            self.checked@[j]
                        },
                decreases self.checked.len() - i,
            {
                marks.push(if i == self.selected {
                    !self.checked[i]
                } else {
                    self.checked[i]
                });
                i += 1;
            }
            assert(marks@ =~= self.checked@.update(
                self.selected as int,
                !self.checked@[self.selected as int],
            ));
            self.checked = marks;
        }
    }

    /// The positions of the checked items, in ascending order.
    pub fn checked_indices(&self) -> (r: Vec<usize>)
        ensures
            r@ == set_positions(self.marks()),
    {
        let mut out: Vec<usize> = Vec::new();
        let mut i: usize = 0;
        assert(self.checked@.take(0) =~= Seq::empty());
        while i < self.checked.len()
            invariant
                i <= self.checked.len(),
                out@ == set_positions(self.checked@.take(i as int)),
            decreases self.checked.len() - i,
        {
            proof {
                let upto = self.checked@.take(i + 1);
                assert(upto.drop_last() =~= self.checked@.take(i as int));
                assert(upto.last() == self.checked@[i as int]);
            }
            if self.checked[i] {
                out.push(i);
            }
            i += 1;
        }
        assert(self.checked@.take(self.checked.len() as int) =~= self.checked@);
        out
    }

    /// Moves the selection down by one item, and the visible rows with
    /// it where it would leave them.
    pub fn select_next(&mut self)
        ensures
            final(self).place() == old(self).place(),
            final(self).rows() == old(self).rows(),
            final(self).labels() == old(self).labels(),
            final(self).marks() == old(self).marks(),
            final(self).selection() == if old(self).selection() + 1 < old(self).labels().len() {
                old(self).selection() + 1
            } else {
                old(self).selection()
            },
            final(self).offset() == if old(self).selection() + 1 < old(self).labels().len() {
                offset_below(old(self).offset(), old(self).rows(), old(self).selection() + 1)
            } else {
                old(self).offset()
            },
    {
        proof {
            use_type_invariant(&*self);
        }
        let count = self.items.len();
        if count > 0 && self.selected < count - 1 {
            let at: usize = self.selected + 1;
            let height: usize = self.height as usize;
            self.selected = at;
            if self.scroll_offset <= at && at - self.scroll_offset >= height {
                self.scroll_offset = at + 1 - height;
            }
        }
    }

    /// Moves the selection up by one item, and the visible rows with it
    /// where it would leave them.
    pub fn select_prev(&mut self)
        ensures
            final(self).place() == old(self).place(),
            final(self).rows() == old(self).rows(),
            final(self).labels() == old(self).labels(),
            final(self).marks() == old(self).marks(),
            final(self).selection() == if old(self).selection() > 0 {
                (old(self).selection() - 1) as nat
            } else {
                old(self).selection()
            },
            final(self).offset() == if old(self).selection() > 0 && old(self).selection() - 1
                < old(self).offset() {
                (old(self).selection() - 1) as nat
            } else {
                old(self).offset()
            },
    {
        proof {
            use_type_invariant(&*self);
        }
        if self.selected > 0 {
            let at: usize = self.selected - 1;
            self.selected = at;
            if at < self.scroll_offset {
                self.scroll_offset = at;
            }
        }
    }
}

/// A simple button widget
#[derive(Debug)]
pub struct Button {
    pub label: String,
    pub y: u32,
    pub x: u32,
    pub width: u32,
    pub selected: bool,
}

impl Button {
    /// A button that is not selected.
    pub fn new(label: &str, y: u32, x: u32, width: u32) -> (r: Self)
        ensures
            r.label@ == label@,
            r.y == y,
            r.x == x,
            r.width == width,
            !r.selected,
    {
        Button { label: String::from_str(label), y, x, width, selected: false }
    }

    /// Selects the button, or does away with its selection.
    pub fn set_selected(&mut self, selected: bool)
        ensures
            final(self).selected == selected,
            final(self).label == old(self).label,
            final(self).y == old(self).y,
            final(self).x == old(self).x,
            final(self).width == old(self).width,
    {
        self.selected = selected;
    }
}

/// The length of the longest of `lines`, 0 where there is none.
pub open spec fn longest(lines: Seq<String>) -> nat
    decreases lines.len(),
{
    if lines.len() == 0 {
        0
    } else {
        let before = longest(lines.drop_last());
        let last = lines.last()@.len();
        if last > before {
            last
        } else {
            before
        }
    }
}

/// `value` as a `u32`, or the largest `u32` where it does not fit.
pub open spec fn clamped(value: int) -> u32 {
    if value > u32::MAX {
        u32::MAX
    } else {
        value as u32
    }
}

/// The width of a dialog: four columns more than the widest of its
/// message (40 for an empty message), its title with four columns around
/// it, and 20.
pub open spec fn dialog_width(title: &str, message: Seq<String>) -> u32 {
    let text = if message.len() == 0 {
        40
    } else {
        longest(message)
    };
    let titled = title@.len() + 4;
    let widest = if text >= titled && text >= 20 {
        text
    } else if titled >= 20 {
        titled
    } else {
        20
    };
    clamped((widest + 4) as int)
}

/// The height of a dialog: its lines, its buttons, and six rows of frame
/// and space.
pub open spec fn dialog_height(lines: nat, buttons: nat) -> u32 {
    clamped((lines + buttons + 6) as int)
}

/// A dialog box widget
pub struct Dialog {
    title: String,
    message: Vec<String>,
    buttons: Vec<String>,
    selected_button: usize,
    y: u32,
    x: u32,
    width: u32,
    height: u32,
}

impl Dialog {
    /// The title of the dialog.
    pub closed spec fn heading(&self) -> Seq<char> {
        self.title@
    }

    /// The lines of the message.
    pub closed spec fn lines(&self) -> Seq<String> {
        self.message@
    }

    /// The labels of the buttons.
    pub closed spec fn button_labels(&self) -> Seq<String> {
        self.buttons@
    }

    /// The position of the selected button.
    pub closed spec fn selection(&self) -> nat {
        self.selected_button as nat
    }

    /// Row, column, width and height of the dialog.
    pub closed spec fn frame(&self) -> (u32, u32, u32, u32) {
        (self.y, self.x, self.width, self.height)
    }

    /// A dialog at the top left corner, sized by its content, with its
    /// first button selected.
    pub fn new(title: &str, message: Vec<String>, buttons: Vec<String>) -> (r: Self)
        ensures
            r.heading() == title@,
            r.lines() == message@,
            r.button_labels() == buttons@,
            r.selection() == 0,
            r.frame() == (
                0u32,
                0u32,
                dialog_width(title, message@),
                dialog_height(message@.len(), buttons@.len()),
            ),
    {
        let mut text: usize = 0;
        let mut i: usize = 0;
        assert(message@.take(0) =~= Seq::empty());
        while i < message.len()
            invariant
                i <= message.len(),
                text == longest(message@.take(i as int)),
            decreases message.len() - i,
        {
            proof {
                let upto = message@.take(i + 1);
                assert(upto.drop_last() =~= message@.take(i as int));
                assert(upto.last() == message@[i as int]);
            }
            let len = message[i].as_str().unicode_len();
            if len > text {
                text = len;
            }
            i += 1;
        }
        assert(message@.take(message.len() as int) =~= message@);
        if message.len() == 0 {
            text = 40;
        }
        let title_len = title.unicode_len();
        let titled: usize = if title_len > usize::MAX - 4 {
            usize::MAX
        } else {
            title_len + 4
        };
        let widest: usize = if text >= titled && text >= 20 {
            text
        } else if titled >= 20 {
            titled
        } else {
            20
        };
        let columns: u128 = widest as u128 + 4;
        let width: u32 = if columns > 0xFFFF_FFFF {
            0xFFFF_FFFF
        } else {
            columns as u32
        };
        let rows: u128 = message.len() as u128 + buttons.len() as u128 + 6;
        let height: u32 = if rows > 0xFFFF_FFFF {
            0xFFFF_FFFF
        } else {
            rows as u32
        };
        Dialog {
            title: String::from_str(title),
            message,
            buttons,
            selected_button: 0,
            y: 0,
            x: 0,
            width,
            height,
        }
    }

    /// Puts the dialog in the middle of a screen of the given size, and
    /// at its top or left edge where the screen is too small.
    pub fn center(&mut self, screen_rows: u32, screen_cols: u32)
        ensures
            final(self).heading() == old(self).heading(),
            final(self).lines() == old(self).lines(),
            final(self).button_labels() == old(self).button_labels(),
            final(self).selection() == old(self).selection(),
            final(self).frame() == (
                if screen_rows >= old(self).frame().3 {
                    ((screen_rows - old(self).frame().3) / 2) as u32
                } else {
                    0u32
                },
                if screen_cols >= old(self).frame().2 {
                    ((screen_cols - old(self).frame().2) / 2) as u32
                } else {
                    0u32
                },
                old(self).frame().2,
                old(self).frame().3,
            ),
    {
        self.y = if screen_rows >= self.height {
            (screen_rows - self.height) / 2
        } else {
            0
        };
        self.x = if screen_cols >= self.width {
            (screen_cols - self.width) / 2
        } else {
            0
        };
    }

    /// The position of the selected button.
    pub fn selected_button(&self) -> (r: usize)
        ensures
            r == self.selection(),
    {
        self.selected_button
    }

    /// Title, message and buttons of the dialog.
    pub fn content(&self) -> (r: (&String, &Vec<String>, &Vec<String>))
        ensures
            r.0@ == self.heading(),
            r.1@ == self.lines(),
            r.2@ == self.button_labels(),
    {
        (&self.title, &self.message, &self.buttons)
    }

    /// Row, column, width and height of the dialog.
    pub fn geometry(&self) -> (r: (u32, u32, u32, u32))
        ensures
            r == self.frame(),
    {
        (self.y, self.x, self.width, self.height)
    }

    /// Moves the selection to the next button, if there is one.
    pub fn select_next_button(&mut self)
        ensures
            final(self).heading() == old(self).heading(),
            final(self).lines() == old(self).lines(),
            final(self).button_labels() == old(self).button_labels(),
            final(self).frame() == old(self).frame(),
            final(self).selection() == if old(self).selection() + 1 < old(
                self,
            ).button_labels().len() {
                old(self).selection() + 1
            } else {
                old(self).selection()
            },
    {
        let count = self.buttons.len();
        if count > 0 && self.selected_button < count - 1 {
            self.selected_button += 1;
        }
    }

    /// Moves the selection to the button before, if there is one.
    pub fn select_prev_button(&mut self)
        ensures
            final(self).heading() == old(self).heading(),
            final(self).lines() == old(self).lines(),
            final(self).button_labels() == old(self).button_labels(),
            final(self).frame() == old(self).frame(),
            final(self).selection() == if old(self).selection() > 0 {
                (old(self).selection() - 1) as nat
            } else {
                old(self).selection()
            },
    {
        if self.selected_button > 0 {
            self.selected_button -= 1;
        }
    }
}

/// An input field widget
pub struct InputField {
    label: String,
    value: String,
    y: u32,
    x: u32,
    width: u32,
    cursor_pos: usize,
}

impl InputField {
    #[verifier::type_invariant]
    spec fn inv(self) -> bool {
        self.cursor_pos <= self.value@.len()
    }

    /// The text of the field.
    pub closed spec fn text(&self) -> Seq<char> {
        self.value@
    }

    /// The position of the cursor, counted in characters.
    pub closed spec fn cursor(&self) -> nat {
        self.cursor_pos as nat
    }

    /// The label of the field.
    pub closed spec fn caption(&self) -> Seq<char> {
        self.label@
    }

    /// Row, column and width of the field on the screen.
    pub closed spec fn frame(&self) -> (u32, u32, u32) {
        (self.y, self.x, self.width)
    }

    /// A field that holds `value`, with the cursor behind it.
    pub fn new(label: &str, value: &str, y: u32, x: u32, width: u32) -> (r: Self)
        ensures
            r.caption() == label@,
            r.text() == value@,
            r.cursor() == value@.len(),
            r.frame() == (y, x, width),
    {
        let cursor_pos = value.unicode_len();
        InputField {
            label: String::from_str(label),
            value: String::from_str(value),
            y,
            x,
            width,
            cursor_pos,
        }
    }

    /// The text of the field.
    pub fn value(&self) -> (r: &str)
        ensures
            r@ == self.text(),
    {
        self.value.as_str()
    }

    /// The position of the cursor, counted in characters.
    pub fn cursor_position(&self) -> (r: usize)
        ensures
            r == self.cursor(),
            r <= self.text().len(),
    {
        proof {
            use_type_invariant(self);
        }
        self.cursor_pos
    }

    /// The label of the field, and its row, column and width on the
    /// screen.
    pub fn geometry(&self) -> (r: (&String, u32, u32, u32))
        ensures
            r.0@ == self.caption(),
            (r.1, r.2, r.3) == self.frame(),
    {
        (&self.label, self.y, self.x, self.width)
    }

    /// Puts `c` in at the cursor, which moves behind it. A field that
    /// cannot count further characters stays as it is.
    pub fn insert_char(&mut self, c: char)
        ensures
            final(self).caption() == old(self).caption(),
            final(self).frame() == old(self).frame(),
            old(self).text().len() < usize::MAX ==> {
                &&& final(self).text() == old(self).text().insert(old(self).cursor() as int, c)
                &&& final(self).cursor() == old(self).cursor() + 1
            },
            old(self).text().len() >= usize::MAX ==> {
                &&& final(self).text() == old(self).text()
                &&& final(self).cursor() == old(self).cursor()
            },
    {
        proof {
            use_type_invariant(&*self);
        }
        let mut chars = chars_of(self.value.as_str());
        if chars.len() < usize::MAX {
            chars.insert(self.cursor_pos, c);
            let text = string_of(&chars);
            let at = self.cursor_pos + 1;
            *self = InputField {
                label: self.label.clone(),
                value: text,
                y: self.y,
                x: self.x,
                width: self.width,
                cursor_pos: at,
            };
        }
    }

    /// Takes out the character before the cursor, which moves back.
    pub fn backspace(&mut self)
        ensures
            final(self).caption() == old(self).caption(),
            final(self).frame() == old(self).frame(),
            final(self).text() == if old(self).cursor() > 0 {
                old(self).text().remove(old(self).cursor() - 1)
            } else {
                old(self).text()
            },
            final(self).cursor() == if old(self).cursor() > 0 {
                (old(self).cursor() - 1) as nat
            } else {
                old(self).cursor()
            },
    {
        proof {
            use_type_invariant(&*self);
        }
        if self.cursor_pos > 0 {
            let mut chars = chars_of(self.value.as_str());
            let at = self.cursor_pos - 1;
            chars.remove(at);
            let text = string_of(&chars);
            *self = InputField {
                label: self.label.clone(),
                value: text,
                y: self.y,
                x: self.x,
                width: self.width,
                cursor_pos: at,
            };
        }
    }

    /// Takes out the character at the cursor.
    pub fn delete(&mut self)
        ensures
            final(self).caption() == old(self).caption(),
            final(self).frame() == old(self).frame(),
            final(self).cursor() == old(self).cursor(),
            final(self).text() == if old(self).cursor() < old(self).text().len() {
                old(self).text().remove(old(self).cursor() as int)
            } else {
                old(self).text()
            },
    {
        proof {
            use_type_invariant(&*self);
        }
        let mut chars = chars_of(self.value.as_str());
        if self.cursor_pos < chars.len() {
            chars.remove(self.cursor_pos);
            let text = string_of(&chars);
            *self = InputField {
                label: self.label.clone(),
                value: text,
                y: self.y,
                x: self.x,
                width: self.width,
                cursor_pos: self.cursor_pos,
            };
        }
    }

    /// Moves the cursor one character to the left, if it can.
    pub fn move_cursor_left(&mut self)
        ensures
            final(self).caption() == old(self).caption(),
            final(self).frame() == old(self).frame(),
            final(self).text() == old(self).text(),
            final(self).cursor() == if old(self).cursor() > 0 {
                (old(self).cursor() - 1) as nat
            } else {
                old(self).cursor()
            },
    {
        proof {
            use_type_invariant(&*self);
        }
        if self.cursor_pos > 0 {
            self.cursor_pos -= 1;
        }
    }

    /// Moves the cursor one character to the right, if it can.
    pub fn move_cursor_right(&mut self)
        ensures
            final(self).caption() == old(self).caption(),
            final(self).frame() == old(self).frame(),
            final(self).text() == old(self).text(),
            final(self).cursor() == if old(self).cursor() < old(self).text().len() {
                old(self).cursor() + 1
            } else {
                old(self).cursor()
            },
    {
        proof {
            use_type_invariant(&*self);
        }
        if self.cursor_pos < self.value.as_str().unicode_len() {
            self.cursor_pos += 1;
        }
    }
}

} // verus!
