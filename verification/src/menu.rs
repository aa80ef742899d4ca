use crate::ids::{internalize_id, reserved_of, MAX_APP_ID};
use vstd::prelude::*;
use vstd::string::StringExecFns;

verus! {

/// Layout type flag: the entry starts a new column (a new line in a menu bar).
pub const FLAG_MENU_BREAK: u32 = 0x40;

/// Layout type flag: a new column preceded by a vertical separator.
pub const FLAG_MENU_BAR_BREAK: u32 = 0x20;

/// Layout type flag: the entry is right-justified in the menu bar.
pub const FLAG_RIGHT_JUSTIFY: u32 = 0x4000;

/// One entry of a menu.
#[derive(Debug)]
pub enum MenuEntry {
    /// A selectable string item, addressed by its identifier in the reserved
    /// native range (see [`crate::ids::reserved_of`]).
    Item {
        /// The identifier in the reserved native range.
        native_id: u32,
        /// The display text.
        text: String,
        /// Whether the item shows a check mark.
        checked: bool,
        /// Whether the item can be selected.
        enabled: bool,
        /// Whether the item is drawn highlighted.
        highlighted: bool,
        /// The layout type flags (`FLAG_MENU_BREAK`, `FLAG_MENU_BAR_BREAK`,
        /// `FLAG_RIGHT_JUSTIFY`).
        type_flags: u32,
    },
    /// A horizontal separator.
    Separator,
    /// A submenu. Ownership of the child menu's resource was transferred into
    /// this menu when the entry was appended.
    Submenu {
        /// The child menu.
        menu: Menu,
        /// The display text of the submenu entry.
        text: String,
    },
}

/// `e` is a selectable item carrying the reserved identifier `native_id`.
pub open spec fn is_item_with(e: MenuEntry, native_id: u32) -> bool {
    e matches MenuEntry::Item { native_id: n, .. } && n == native_id
}

/// Some entry of `entries` is a selectable item with identifier `native_id`.
pub open spec fn has_item(entries: Seq<MenuEntry>, native_id: u32) -> bool {
    exists|i: int| 0 <= i < entries.len() && is_item_with(entries[i], native_id)
}

/// `i` is the position of the first selectable item of `entries` carrying
/// `native_id`.
pub open spec fn is_first_item_index(entries: Seq<MenuEntry>, native_id: u32, i: int) -> bool {
    &&& 0 <= i < entries.len()
    &&& is_item_with(entries[i], native_id)
    &&& forall|j: int| 0 <= j < i ==> !is_item_with(entries[j], native_id)
}

/// `e` is a freshly appended selectable item: identifier `native_id`, display
/// text `text`, and all state at its defaults (unchecked, enabled, not
/// highlighted, no layout flags).
pub open spec fn is_fresh_item(e: MenuEntry, native_id: u32, text: Seq<char>) -> bool {
    &&& e matches MenuEntry::Item {
        native_id: n,
        text: t,
        checked,
        enabled,
        highlighted,
        type_flags,
    }
    &&& n == native_id
    &&& t@ == text
    &&& checked == false
    &&& enabled == true
    &&& highlighted == false
    &&& type_flags == 0
}

/// The layout type flags `before` with `flag` set or cleared according to
/// `state`; the update is a read-modify-write, so flags other than `flag`
/// are kept.
pub open spec fn flag_applied(before: u32, flag: u32, state: bool) -> u32 {
    if state {
        before | flag
    } else {
        before & !flag
    }
}

/// `after` is the selectable item `before` with only its check mark changed.
pub open spec fn is_rechecked(before: MenuEntry, after: MenuEntry, checked: bool) -> bool {
    &&& before matches MenuEntry::Item { native_id, text, enabled, highlighted, type_flags, .. }
    &&& after == (MenuEntry::Item { native_id, text, checked, enabled, highlighted, type_flags })
}

/// `after` is the selectable item `before` with only its enabled state changed.
pub open spec fn is_reenabled(before: MenuEntry, after: MenuEntry, enabled: bool) -> bool {
    &&& before matches MenuEntry::Item { native_id, text, checked, highlighted, type_flags, .. }
    &&& after == (MenuEntry::Item { native_id, text, checked, enabled, highlighted, type_flags })
}

/// `after` is the selectable item `before` with only its highlight state changed.
pub open spec fn is_rehighlighted(before: MenuEntry, after: MenuEntry, highlighted: bool) -> bool {
    &&& before matches MenuEntry::Item { native_id, text, checked, enabled, type_flags, .. }
    &&& after == (MenuEntry::Item { native_id, text, checked, enabled, highlighted, type_flags })
}

/// `after` is the selectable item `before` with only the layout flag `flag`
/// set or cleared.
pub open spec fn is_reflagged(before: MenuEntry, after: MenuEntry, flag: u32, state: bool) -> bool {
    &&& before matches MenuEntry::Item { native_id, text, checked, enabled, highlighted, type_flags }
    &&& after == (MenuEntry::Item {
        native_id,
        text,
        checked,
        enabled,
        highlighted,
        type_flags: flag_applied(type_flags, flag, state),
    })
}

/// A menu resource: an ordered list of entries. Entries are addressed either
/// by position (submenus) or by an application identifier that is translated
/// into the reserved native range on every call that accepts one; a failed
/// translation is rejected before the menu is touched, so the menu is
/// unchanged on any error.
#[derive(Debug)]
pub struct Menu {
    entries: Vec<MenuEntry>,
}

impl Menu {
    /// The entries of this menu, in order.
    pub closed spec fn spec_entries(self) -> Seq<MenuEntry> {
        self.entries@
    }

    /// Construct an empty menu.
    pub fn new() -> (r: Result<Menu, String>)
        ensures
            r matches Ok(m) && m.spec_entries().len() == 0,
    {
        Ok(Menu { entries: Vec::new() })
    }

    /// An empty menu, for the session's initial menu bar.
    pub(crate) fn empty() -> (m: Menu)
        ensures
            m.spec_entries().len() == 0,
    {
        Menu { entries: Vec::new() }
    }

    /// The entries, for read-only inspection; a driver mirrors them into the
    /// native menu resource.
    pub fn entries(&self) -> (r: &Vec<MenuEntry>)
        ensures
            r@ == self.spec_entries(),
    {
        &self.entries
    }

    /// The number of entries of this menu (separators and submenus included).
    pub fn item_count(&self) -> (n: usize)
        ensures
            n == self.spec_entries().len(),
    {
        self.entries.len()
    }

    /// The submenu at position `index`, or `None` if that position does not
    /// hold a submenu.
    pub fn get_submenu(&self, index: u32) -> (r: Option<&Menu>)
        ensures
            match r {
                Some(m) => {
                    &&& index < self.spec_entries().len()
                    &&& self.spec_entries()[index as int] matches MenuEntry::Submenu {
                        menu: sub,
                        ..
                    }
                    &&& *m == sub
                },
                None => index < self.spec_entries().len()
                    ==> !(self.spec_entries()[index as int] is Submenu),
            },
    {
        if (index as usize) < self.entries.len() {
            match &self.entries[index as usize] {
                MenuEntry::Submenu { menu, .. } => Some(menu),
                _ => None,
            }
        } else {
            None
        }
    }

    /// Append a selectable item with the given application identifier and
    /// text. Rejected without touching the menu when `id > MAX_APP_ID`.
    pub fn add_item(&mut self, id: u16, text: &str) -> (r: Result<(), String>)
        ensures
            r is Ok <==> id <= MAX_APP_ID,
            r is Err ==> final(self).spec_entries() == old(self).spec_entries(),
            r is Ok ==> {
                &&& final(self).spec_entries().len() == old(self).spec_entries().len() + 1
                &&& final(self).spec_entries().subrange(0, old(self).spec_entries().len() as int)
                    == old(self).spec_entries()
                &&& is_fresh_item(final(self).spec_entries().last(), reserved_of(id), text@)
            },
    {
        let wid = match internalize_id(id) {
            Ok(w) => w,
            Err(e) => {
                return Err(e);
            },
        };
        self.entries.push(MenuEntry::Item {
            native_id: wid,
            text: String::from_str(text),
            checked: false,
            enabled: true,
            highlighted: false,
            type_flags: 0,
        });
        proof {
            assert(self.entries@.subrange(0, old(self).entries@.len() as int)
                =~= old(self).entries@);
        }
        Ok(())
    }

    /// Append a submenu entry. Ownership of the child menu's resource moves
    /// into this menu; the child must not be used standalone afterwards,
    /// which the move enforces.
    pub fn add_submenu(&mut self, submenu: Menu, text: &str) -> (r: Result<(), String>)
        ensures
            r is Ok,
            final(self).spec_entries().len() == old(self).spec_entries().len() + 1,
            final(self).spec_entries().subrange(0, old(self).spec_entries().len() as int)
                == old(self).spec_entries(),
            final(self).spec_entries().last() matches MenuEntry::Submenu { menu: m, text: t }
                && m == submenu && t@ == text@,
    {
        self.entries.push(MenuEntry::Submenu { menu: submenu, text: String::from_str(text) });
        proof {
            assert(self.entries@.subrange(0, old(self).entries@.len() as int)
                =~= old(self).entries@);
        }
        Ok(())
    }

    /// Append a horizontal separator.
    pub fn add_separator(&mut self) -> (r: Result<(), String>)
        ensures
            r is Ok,
            final(self).spec_entries() == old(self).spec_entries().push(MenuEntry::Separator),
    {
        self.entries.push(MenuEntry::Separator);
        Ok(())
    }

    /// The position of the first selectable item carrying `native_id`.
    fn find_item(&self, native_id: u32) -> (r: Option<usize>)
        ensures
            match r {
                Some(i) => is_first_item_index(self.spec_entries(), native_id, i as int),
                None => !has_item(self.spec_entries(), native_id),
            },
    {
        let n = self.entries.len();
        let mut i: usize = 0;
        while i < n
            invariant
                n == self.spec_entries().len(),
                i <= n,
                forall|j: int| 0 <= j < i ==> !is_item_with(self.spec_entries()[j], native_id),
            decreases n - i,
        {
            let found = match &self.entries[i] {
                MenuEntry::Item { native_id: nid, .. } => *nid == native_id,
                _ => false,
            };
            if found {
                return Some(i);
            }
            i = i + 1;
        }
        None
    }

    /// Replace the first item carrying `id` with a fresh item carrying
    /// `new_id` and `text`. Rejected without touching the menu when either
    /// identifier is out of range or no item carries `id`.
    pub fn replace_item(&mut self, id: u16, new_id: u16, text: &str) -> (r: Result<(), String>)
        ensures
            r is Ok <==> id <= MAX_APP_ID && new_id <= MAX_APP_ID && has_item(
                old(self).spec_entries(),
                reserved_of(id),
            ),
            r is Err ==> final(self).spec_entries() == old(self).spec_entries(),
            r is Ok ==> exists|i: int|
                {
                    &&& is_first_item_index(old(self).spec_entries(), reserved_of(id), i)
                    &&& final(self).spec_entries().len() == old(self).spec_entries().len()
                    &&& is_fresh_item(#[trigger] final(self).spec_entries()[i], reserved_of(new_id), text@)
                    &&& forall|j: int|
                        0 <= j < old(self).spec_entries().len() && j != i
                            ==> final(self).spec_entries()[j] == old(self).spec_entries()[j]
                },
    {
        let wid = match internalize_id(id) {
            Ok(w) => w,
            Err(e) => {
                return Err(e);
            },
        };
        let new_wid = match internalize_id(new_id) {
            Ok(w) => w,
            Err(e) => {
                return Err(e);
            },
        };
        let idx = match self.find_item(wid) {
            Some(i) => i,
            None => {
                return Err("no menu item carries this identifier".to_string());
            },
        };
        let entry = &mut self.entries[idx];
        *entry = MenuEntry::Item {
            native_id: new_wid,
            text: String::from_str(text),
            checked: false,
            enabled: true,
            highlighted: false,
            type_flags: 0,
        };
        proof {
            let i = idx as int;
            assert({
                &&& is_first_item_index(old(self).spec_entries(), reserved_of(id), i)
                &&& self.spec_entries().len() == old(self).spec_entries().len()
                &&& is_fresh_item(self.spec_entries()[i], reserved_of(new_id), text@)
                &&& forall|j: int|
                    0 <= j < old(self).spec_entries().len() && j != i
                        ==> self.spec_entries()[j] == old(self).spec_entries()[j]
            });
        }
        Ok(())
    }

    /// Remove the first item carrying `id`. Rejected without touching the
    /// menu when the identifier is out of range or no item carries it.
    pub fn remove_item(&mut self, id: u16) -> (r: Result<(), String>)
        ensures
            r is Ok <==> id <= MAX_APP_ID && has_item(old(self).spec_entries(), reserved_of(id)),
            r is Err ==> final(self).spec_entries() == old(self).spec_entries(),
            r is Ok ==> exists|i: int|
                {
                    &&& #[trigger] is_first_item_index(old(self).spec_entries(), reserved_of(id), i)
                    &&& final(self).spec_entries() == old(self).spec_entries().remove(i)
                },
    {
        let wid = match internalize_id(id) {
            Ok(w) => w,
            Err(e) => {
                return Err(e);
            },
        };
        let idx = match self.find_item(wid) {
            Some(i) => i,
            None => {
                return Err("no menu item carries this identifier".to_string());
            },
        };
        let _removed = self.entries.remove(idx);
        Ok(())
    }

    /// Set or clear the check mark of the first item carrying `id`. Rejected
    /// without touching the menu when the identifier is out of range or no
    /// item carries it.
    pub fn set_item_check(&mut self, id: u16, checked: bool) -> (r: Result<(), String>)
        ensures
            r is Ok <==> id <= MAX_APP_ID && has_item(old(self).spec_entries(), reserved_of(id)),
            r is Err ==> final(self).spec_entries() == old(self).spec_entries(),
            r is Ok ==> exists|i: int|
                {
                    &&& is_first_item_index(old(self).spec_entries(), reserved_of(id), i)
                    &&& final(self).spec_entries().len() == old(self).spec_entries().len()
                    &&& is_rechecked(
                        old(self).spec_entries()[i],
                        #[trigger] final(self).spec_entries()[i],
                        checked,
                    )
                    &&& forall|j: int|
                        0 <= j < old(self).spec_entries().len() && j != i
                            ==> final(self).spec_entries()[j] == old(self).spec_entries()[j]
                },
    {
        let wid = match internalize_id(id) {
            Ok(w) => w,
            Err(_) => {
                return Err("Error checking menu item.".to_string());
            },
        };
        let idx = match self.find_item(wid) {
            Some(i) => i,
            None => {
                return Err("Error checking menu item.".to_string());
            },
        };
        let removed = self.entries.remove(idx);
        match removed {
            MenuEntry::Item { native_id, text, enabled, highlighted, type_flags, .. } => {
                self.entries.insert(
                    idx,
                    MenuEntry::Item { native_id, text, checked, enabled, highlighted, type_flags },
                );
            },
            other => {
                proof {
                    assert(false);
                }
                self.entries.insert(idx, other);
            },
        }
        proof {
            let i = idx as int;
            assert({
                &&& is_first_item_index(old(self).spec_entries(), reserved_of(id), i)
                &&& self.spec_entries().len() == old(self).spec_entries().len()
                &&& is_rechecked(old(self).spec_entries()[i], self.spec_entries()[i], checked)
                &&& forall|j: int|
                    0 <= j < old(self).spec_entries().len() && j != i
                        ==> self.spec_entries()[j] == old(self).spec_entries()[j]
            });
        }
        Ok(())
    }

    /// Enable or disable the first item carrying `id`. Rejected without
    /// touching the menu when the identifier is out of range or no item
    /// carries it.
    pub fn set_item_enable(&mut self, id: u16, enabled: bool) -> (r: Result<(), String>)
        ensures
            r is Ok <==> id <= MAX_APP_ID && has_item(old(self).spec_entries(), reserved_of(id)),
            r is Err ==> final(self).spec_entries() == old(self).spec_entries(),
            r is Ok ==> exists|i: int|
                {
                    &&& is_first_item_index(old(self).spec_entries(), reserved_of(id), i)
                    &&& final(self).spec_entries().len() == old(self).spec_entries().len()
                    &&& is_reenabled(
                        old(self).spec_entries()[i],
                        #[trigger] final(self).spec_entries()[i],
                        enabled,
                    )
                    &&& forall|j: int|
                        0 <= j < old(self).spec_entries().len() && j != i
                            ==> final(self).spec_entries()[j] == old(self).spec_entries()[j]
                },
    {
        let wid = match internalize_id(id) {
            Ok(w) => w,
            Err(_) => {
                return Err("Error enabling menu item.".to_string());
            },
        };
        let idx = match self.find_item(wid) {
            Some(i) => i,
            None => {
                return Err("Error enabling menu item.".to_string());
            },
        };
        let removed = self.entries.remove(idx);
        match removed {
            MenuEntry::Item { native_id, text, checked, highlighted, type_flags, .. } => {
                self.entries.insert(
                    idx,
                    MenuEntry::Item { native_id, text, checked, enabled, highlighted, type_flags },
                );
            },
            other => {
                proof {
                    assert(false);
                }
                self.entries.insert(idx, other);
            },
        }
        proof {
            let i = idx as int;
            assert({
                &&& is_first_item_index(old(self).spec_entries(), reserved_of(id), i)
                &&& self.spec_entries().len() == old(self).spec_entries().len()
                &&& is_reenabled(old(self).spec_entries()[i], self.spec_entries()[i], enabled)
                &&& forall|j: int|
                    0 <= j < old(self).spec_entries().len() && j != i
                        ==> self.spec_entries()[j] == old(self).spec_entries()[j]
            });
        }
        Ok(())
    }

    /// Highlight or unhighlight the first item carrying `id`. Rejected
    /// without touching the menu when the identifier is out of range or no
    /// item carries it.
    pub fn set_item_highlight(&mut self, id: u16, highlighted: bool) -> (r: Result<(), String>)
        ensures
            r is Ok <==> id <= MAX_APP_ID && has_item(old(self).spec_entries(), reserved_of(id)),
            r is Err ==> final(self).spec_entries() == old(self).spec_entries(),
            r is Ok ==> exists|i: int|
                {
                    &&& is_first_item_index(old(self).spec_entries(), reserved_of(id), i)
                    &&& final(self).spec_entries().len() == old(self).spec_entries().len()
                    &&& is_rehighlighted(
                        old(self).spec_entries()[i],
                        #[trigger] final(self).spec_entries()[i],
                        highlighted,
                    )
                    &&& forall|j: int|
                        0 <= j < old(self).spec_entries().len() && j != i
                            ==> final(self).spec_entries()[j] == old(self).spec_entries()[j]
                },
    {
        let wid = match internalize_id(id) {
            Ok(w) => w,
            Err(_) => {
                return Err("Error highlighting menu item.".to_string());
            },
        };
        let idx = match self.find_item(wid) {
            Some(i) => i,
            None => {
                return Err("Error highlighting menu item.".to_string());
            },
        };
        let removed = self.entries.remove(idx);
        match removed {
            MenuEntry::Item { native_id, text, checked, enabled, type_flags, .. } => {
                self.entries.insert(
                    idx,
                    MenuEntry::Item { native_id, text, checked, enabled, highlighted, type_flags },
                );
            },
            other => {
                proof {
                    assert(false);
                }
                self.entries.insert(idx, other);
            },
        }
        proof {
            let i = idx as int;
            assert({
                &&& is_first_item_index(old(self).spec_entries(), reserved_of(id), i)
                &&& self.spec_entries().len() == old(self).spec_entries().len()
                &&& is_rehighlighted(old(self).spec_entries()[i], self.spec_entries()[i], highlighted)
                &&& forall|j: int|
                    0 <= j < old(self).spec_entries().len() && j != i
                        ==> self.spec_entries()[j] == old(self).spec_entries()[j]
            });
        }
        Ok(())
    }

    /// Set or clear the menu-break layout flag of the first item carrying `id`.
    pub fn set_item_menu_break(&mut self, id: u16, state: bool) -> (r: Result<(), String>)
        ensures
            r is Ok <==> id <= MAX_APP_ID && has_item(old(self).spec_entries(), reserved_of(id)),
            r is Err ==> final(self).spec_entries() == old(self).spec_entries(),
            r is Ok ==> exists|i: int|
                {
                    &&& is_first_item_index(old(self).spec_entries(), reserved_of(id), i)
                    &&& final(self).spec_entries().len() == old(self).spec_entries().len()
                    &&& is_reflagged(
                        old(self).spec_entries()[i],
                        #[trigger] final(self).spec_entries()[i],
                        FLAG_MENU_BREAK,
                        state,
                    )
                    &&& forall|j: int|
                        0 <= j < old(self).spec_entries().len() && j != i
                            ==> final(self).spec_entries()[j] == old(self).spec_entries()[j]
                },
    {
        let wid = match internalize_id(id) {
            Ok(w) => w,
            Err(_) => {
                return Err("Error setting menu break.".to_string());
            },
        };
        self.set_type_flag(wid, FLAG_MENU_BREAK, state)
    }

    /// Set or clear the bar-break layout flag of the first item carrying `id`.
    pub fn set_item_menu_bar_break(&mut self, id: u16, state: bool) -> (r: Result<(), String>)
        ensures
            r is Ok <==> id <= MAX_APP_ID && has_item(old(self).spec_entries(), reserved_of(id)),
            r is Err ==> final(self).spec_entries() == old(self).spec_entries(),
            r is Ok ==> exists|i: int|
                {
                    &&& is_first_item_index(old(self).spec_entries(), reserved_of(id), i)
                    &&& final(self).spec_entries().len() == old(self).spec_entries().len()
                    &&& is_reflagged(
                        old(self).spec_entries()[i],
                        #[trigger] final(self).spec_entries()[i],
                        FLAG_MENU_BAR_BREAK,
                        state,
                    )
                    &&& forall|j: int|
                        0 <= j < old(self).spec_entries().len() && j != i
                            ==> final(self).spec_entries()[j] == old(self).spec_entries()[j]
                },
    {
        let wid = match internalize_id(id) {
            Ok(w) => w,
            Err(_) => {
                return Err("Error setting menu bar break.".to_string());
            },
        };
        self.set_type_flag(wid, FLAG_MENU_BAR_BREAK, state)
    }

    /// Set or clear the right-justify layout flag of the first item carrying `id`.
    pub fn set_item_right_justify(&mut self, id: u16, state: bool) -> (r: Result<(), String>)
        ensures
            r is Ok <==> id <= MAX_APP_ID && has_item(old(self).spec_entries(), reserved_of(id)),
            r is Err ==> final(self).spec_entries() == old(self).spec_entries(),
            r is Ok ==> exists|i: int|
                {
                    &&& is_first_item_index(old(self).spec_entries(), reserved_of(id), i)
                    &&& final(self).spec_entries().len() == old(self).spec_entries().len()
                    &&& is_reflagged(
                        old(self).spec_entries()[i],
                        #[trigger] final(self).spec_entries()[i],
                        FLAG_RIGHT_JUSTIFY,
                        state,
                    )
                    &&& forall|j: int|
                        0 <= j < old(self).spec_entries().len() && j != i
                            ==> final(self).spec_entries()[j] == old(self).spec_entries()[j]
                },
    {
        let wid = match internalize_id(id) {
            Ok(w) => w,
            Err(_) => {
                return Err("Error setting menu item right justify.".to_string());
            },
        };
        self.set_type_flag(wid, FLAG_RIGHT_JUSTIFY, state)
    }

    /// Read-modify-write of the layout type flags of the first item carrying
    /// the reserved identifier `wid`: the current flags are read, `flag` is
    /// set or cleared, and the result written back, keeping the other flags.
    fn set_type_flag(&mut self, wid: u32, flag: u32, state: bool) -> (r: Result<(), String>)
        ensures
            r is Ok <==> has_item(old(self).spec_entries(), wid),
            r is Err ==> final(self).spec_entries() == old(self).spec_entries(),
            r is Ok ==> exists|i: int|
                {
                    &&& is_first_item_index(old(self).spec_entries(), wid, i)
                    &&& final(self).spec_entries().len() == old(self).spec_entries().len()
                    &&& is_reflagged(
                        old(self).spec_entries()[i],
                        #[trigger] final(self).spec_entries()[i],
                        flag,
                        state,
                    )
                    &&& forall|j: int|
                        0 <= j < old(self).spec_entries().len() && j != i
                            ==> final(self).spec_entries()[j] == old(self).spec_entries()[j]
                },
    {
        let idx = match self.find_item(wid) {
            Some(i) => i,
            None => {
                return Err("no menu item carries this identifier".to_string());
            },
        };
        let removed = self.entries.remove(idx);
        match removed {
            MenuEntry::Item { native_id, text, checked, enabled, highlighted, type_flags } => {
                let new_flags = if state {
                    type_flags | flag
                } else {
                    type_flags & !flag
                };
                self.entries.insert(
                    idx,
                    MenuEntry::Item {
                        native_id,
                        text,
                        checked,
                        enabled,
                        highlighted,
                        type_flags: new_flags,
                    },
                );
            },
            other => {
                proof {
                    assert(false);
                }
                self.entries.insert(idx, other);
            },
        }
        proof {
            let i = idx as int;
            assert({
                &&& is_first_item_index(old(self).spec_entries(), wid, i)
                &&& self.spec_entries().len() == old(self).spec_entries().len()
                &&& is_reflagged(old(self).spec_entries()[i], self.spec_entries()[i], flag, state)
                &&& forall|j: int|
                    0 <= j < old(self).spec_entries().len() && j != i
                        ==> self.spec_entries()[j] == old(self).spec_entries()[j]
            });
        }
        Ok(())
    }
}

} // verus!
