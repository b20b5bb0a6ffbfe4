//! The selection menu: three titled columns of entries, a highlighted
//! option/item pair, and wrap-around movement. The menu is hidden between
//! uses; while it is visible the highlighted item always points at an
//! existing entry.

use vstd::prelude::*;
use crate::events::{Key, KeyInput};
use crate::ChangedLineType;

verus! {

/// The option index that marks the menu as hidden.
pub const MENU_HIDDEN: usize = 99;

/// How many entries each menu column holds.
pub open spec fn menu_len(option: int) -> int {
    if option == 0 {
        4
    } else if option == 1 {
        3
    } else {
        2
    }
}

/// The menu highlight after one key: arrows move it (wrapping around);
/// every other key leaves the menu alone. The pair is (option, item).
pub open spec fn menu_nav_step(option: int, item: int, key: KeyInput) -> (int, int) {
    match key.code {
        Key::Up => (option, if item > 0 { item - 1 } else { menu_len(option) - 1 }),
        Key::Down => (option, (item + 1) % menu_len(option)),
        Key::Right => ((option + 1) % 3, 0),
        Key::Left => (if option > 0 { option - 1 } else { 2 }, 0),
        _ => (option, item),
    }
}

pub struct Menu {
    /// Index of the highlighted entry within the open option column.
    pub menu_item: usize,
    /// Index of the open option column, or `MENU_HIDDEN`.
    pub menu_option: usize,
    /// The three column titles.
    pub titles: Vec<&'static str>,
    /// The entries of each column.
    pub items: Vec<Vec<&'static str>>,
}

impl Menu {
    /// A menu column is open.
    pub open spec fn visible(self) -> bool {
        self.menu_option < 3
    }

    /// The fixed shape of the menu, and the bounds of the highlight.
    pub open spec fn wf(self) -> bool {
        &&& self.titles@.len() == 3
        &&& self.items@.len() == 3
        &&& self.items@[0]@.len() == 4
        &&& self.items@[1]@.len() == 3
        &&& self.items@[2]@.len() == 2
        &&& self.menu_option < 3 || self.menu_option == MENU_HIDDEN
        &&& self.menu_item < 4
        &&& self.visible() ==> self.menu_item < self.items@[self.menu_option as int]@.len()
    }

    /// A fresh, hidden menu with the fixed titles and entries.
    pub fn new() -> (r: Menu)
        ensures
            r.wf(),
            !r.visible(),
            r.menu_option == MENU_HIDDEN,
            r.menu_item == 0,
            r.titles@[0]@ == "File"@,
            r.titles@[1]@ == "Color"@,
            r.titles@[2]@ == "Settings"@,
            r.items@[0]@[0]@ == "New file"@,
            r.items@[0]@[1]@ == "Open file"@,
            r.items@[0]@[2]@ == "Save"@,
            r.items@[0]@[3]@ == "Save as"@,
            r.items@[1]@[0]@ == "Theme1"@,
            r.items@[1]@[1]@ == "Theme2"@,
            r.items@[1]@[2]@ == "Theme3"@,
            r.items@[2]@[0]@ == "Save on unfocus"@,
            r.items@[2]@[1]@ == "Something"@,
    {
        let mut titles: Vec<&'static str> = Vec::new();
        titles.push("File");
        titles.push("Color");
        titles.push("Settings");
        let mut file_items: Vec<&'static str> = Vec::new();
        file_items.push("New file");
        file_items.push("Open file");
        file_items.push("Save");
        file_items.push("Save as");
        let mut color_items: Vec<&'static str> = Vec::new();
        color_items.push("Theme1");
        color_items.push("Theme2");
        color_items.push("Theme3");
        let mut settings_items: Vec<&'static str> = Vec::new();
        settings_items.push("Save on unfocus");
        settings_items.push("Something");
        let mut items: Vec<Vec<&'static str>> = Vec::new();
        items.push(file_items);
        items.push(color_items);
        items.push(settings_items);
        Menu { menu_item: 0, menu_option: MENU_HIDDEN, titles, items }
    }

    /// Moving between columns puts the highlight back on the first entry.
    fn adjust_item_pos(&mut self)
        ensures
            *final(self) == (Menu { menu_item: 0, ..*old(self) }),
    {
        self.menu_item = 0;
    }

    /// Opens the next column to the right, wrapping around, with the
    /// highlight on its first entry.
    pub fn move_right(&mut self)
        requires
            old(self).wf(),
            old(self).visible(),
        ensures
            *final(self) == (Menu {
                menu_item: 0,
                menu_option: ((old(self).menu_option + 1) % 3) as usize,
                ..*old(self)
            }),
            final(self).wf(),
            final(self).visible(),
    {
        self.menu_option = (self.menu_option + 1) % self.titles.len();
        self.adjust_item_pos();
    }

    /// Opens the next column to the left, wrapping around, with the
    /// highlight on its first entry.
    pub fn move_left(&mut self)
        requires
            old(self).wf(),
            old(self).visible(),
        ensures
            *final(self) == (Menu {
                menu_item: 0,
                menu_option: if old(self).menu_option > 0 {
                    (old(self).menu_option - 1) as usize
                } else {
                    2
                },
                ..*old(self)
            }),
            final(self).wf(),
            final(self).visible(),
    {
        if self.menu_option > 0 {
            self.menu_option -= 1;
        } else {
            self.menu_option = self.titles.len() - 1;
        }
        self.adjust_item_pos();
    }

    /// Moves the highlight one entry up, wrapping to the bottom.
    pub fn move_up(&mut self)
        requires
            old(self).wf(),
            old(self).visible(),
        ensures
            *final(self) == (Menu {
                menu_item: if old(self).menu_item > 0 {
                    (old(self).menu_item - 1) as usize
                } else {
                    (old(self).items@[old(self).menu_option as int]@.len() - 1) as usize
                },
                ..*old(self)
            }),
            final(self).wf(),
            final(self).visible(),
    {
        if self.menu_item > 0 {
            self.menu_item -= 1;
        } else {
            self.menu_item = self.items[self.menu_option].len() - 1;
        }
    }

    /// Moves the highlight one entry down, wrapping to the top.
    pub fn move_down(&mut self)
        requires
            old(self).wf(),
            old(self).visible(),
        ensures
            *final(self) == (Menu {
                menu_item: ((old(self).menu_item + 1) % old(self).items@[old(
                    self,
                ).menu_option as int]@.len() as int) as usize,
                ..*old(self)
            }),
            final(self).wf(),
            final(self).visible(),
    {
        self.menu_item = (self.menu_item + 1) % self.items[self.menu_option].len();
    }

    /// Opens the first column with the highlight on its first entry.
    pub fn reset(&mut self)
        requires
            old(self).wf(),
        ensures
            *final(self) == (Menu { menu_item: 0, menu_option: 0, ..*old(self) }),
            final(self).wf(),
            final(self).visible(),
    {
        self.menu_option = 0;
        self.menu_item = 0;
    }

    /// Closes the menu; the highlight index is kept as it is.
    pub fn hide_menu(&mut self)
        requires
            old(self).wf(),
        ensures
            *final(self) == (Menu { menu_option: MENU_HIDDEN, ..*old(self) }),
            final(self).wf(),
            !final(self).visible(),
    {
        self.menu_option = MENU_HIDDEN;
    }

    /// Routes one key press to the menu: arrow keys move the highlight as
    /// `menu_nav_step` says and ask for a full redraw; any other key is
    /// reported as no visual change.
    pub fn handle_key_event(&mut self, key_event: KeyInput) -> (r: ChangedLineType)
        requires
            old(self).wf(),
            old(self).visible(),
        ensures
            final(self).wf(),
            final(self).visible(),
            final(self).menu_option == menu_nav_step(
                old(self).menu_option as int,
                old(self).menu_item as int,
                key_event,
            ).0,
            final(self).menu_item == menu_nav_step(
                old(self).menu_option as int,
                old(self).menu_item as int,
                key_event,
            ).1,
            final(self).titles == old(self).titles,
            final(self).items == old(self).items,
            r == if key_event.code == Key::Up || key_event.code == Key::Down || key_event.code
                == Key::Left || key_event.code == Key::Right {
                ChangedLineType::All
            } else {
                ChangedLineType::Unchanged
            },
    {
        match key_event.code {
            Key::Up => {
                self.move_up();
                ChangedLineType::All
            },
            Key::Down => {
                self.move_down();
                ChangedLineType::All
            },
            Key::Right => {
                self.move_right();
                ChangedLineType::All
            },
            Key::Left => {
                self.move_left();
                ChangedLineType::All
            },
            _ => ChangedLineType::Unchanged,
        }
    }

    /// Hands back the highlighted entry's text and closes the menu.
    pub fn select(&mut self) -> (r: &'static str)
        requires
            old(self).wf(),
            old(self).visible(),
        ensures
            r == old(self).items@[old(self).menu_option as int]@[old(self).menu_item as int],
            *final(self) == (Menu { menu_option: MENU_HIDDEN, ..*old(self) }),
            final(self).wf(),
            !final(self).visible(),
    {
        let result = self.items[self.menu_option][self.menu_item];
        self.hide_menu();
        result
    }
}

} // verus!
