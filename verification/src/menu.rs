//! The tray menu: its fixed items, their stable identifiers and display
//! labels, and dispatch from the raw identifier string that the runtime
//! hands back when an item is selected.

use vstd::prelude::*;

verus! {

/// The three entries of the tray context menu, in display order.
#[derive(Clone, Copy, Debug, PartialEq, Eq, Structural)]
pub enum MenuId {
    Open,
    AddHabit,
    Quit,
}

/// The stable identifier under which a menu item is registered and
/// under which its selection is reported back.
pub open spec fn spec_menu_id(m: MenuId) -> Seq<char> {
    match m {
        MenuId::Open => "open"@,
        MenuId::AddHabit => "add_habit"@,
        MenuId::Quit => "quit"@,
    }
}

/// The label shown to the user for a menu item.
pub open spec fn spec_menu_label(m: MenuId) -> Seq<char> {
    match m {
        MenuId::Open => "Open"@,
        MenuId::AddHabit => "Add Habit"@,
        MenuId::Quit => "Quit"@,
    }
}

pub fn menu_id_str(m: MenuId) -> (r: &'static str)
    ensures
        r@ == spec_menu_id(m),
{
    match m {
        MenuId::Open => "open",
        MenuId::AddHabit => "add_habit",
        MenuId::Quit => "quit",
    }
}

pub fn menu_label(m: MenuId) -> (r: &'static str)
    ensures
        r@ == spec_menu_label(m),
{
    match m {
        MenuId::Open => "Open",
        MenuId::AddHabit => "Add Habit",
        MenuId::Quit => "Quit",
    }
}

/// Character-for-character string comparison, so that dispatch on menu
/// identifiers is itself verified.
pub fn str_eq(a: &str, b: &str) -> (r: bool)
    ensures
        r == (a@ == b@),
{
    let a_len = a.unicode_len();
    let b_len = b.unicode_len();
    if a_len != b_len {
        return false;
    }
    let mut i: usize = 0;
    while i < a_len
        invariant
            a_len == a@.len(),
            b_len == b@.len(),
            a_len == b_len,
            i <= a_len,
            forall|j: int| 0 <= j < i ==> a@[j] == b@[j],
        decreases a_len - i,
    {
        if a.get_char(i) != b.get_char(i) {
            return false;
        }
        i += 1;
    }
    proof {
        assert(a@ =~= b@);
    }
    true
}

/// Which menu item, if any, a raw identifier string selects.
pub open spec fn spec_parse_menu_id(s: Seq<char>) -> Option<MenuId> {
    if s == spec_menu_id(MenuId::Open) {
        Some(MenuId::Open)
    } else if s == spec_menu_id(MenuId::AddHabit) {
        Some(MenuId::AddHabit)
    } else if s == spec_menu_id(MenuId::Quit) {
        Some(MenuId::Quit)
    } else {
        None
    }
}

/// Dispatch on the identifier that the runtime reports for a menu
/// selection. An identifier outside the fixed vocabulary selects nothing.
pub fn parse_menu_id(id: &str) -> (r: Option<MenuId>)
    ensures
        r == spec_parse_menu_id(id@),
{
    if str_eq(id, "open") {
        Some(MenuId::Open)
    } else if str_eq(id, "add_habit") {
        Some(MenuId::AddHabit)
    } else if str_eq(id, "quit") {
        Some(MenuId::Quit)
    } else {
        None
    }
}

/// One entry of the tray menu as it is to be registered: its stable
/// identifier, its display label, and whether it is enabled.
pub struct MenuItemDef {
    pub id: MenuId,
    pub label: &'static str,
    pub enabled: bool,
}

/// The tray context menu: three enabled items, in display order `open`,
/// `add_habit`, `quit`, with their fixed labels.
pub fn tray_menu_items() -> (items: Vec<MenuItemDef>)
    ensures
        items@.len() == 3,
        items@[0].id == MenuId::Open,
        items@[1].id == MenuId::AddHabit,
        items@[2].id == MenuId::Quit,
        forall|i: int|
            0 <= i < items@.len() ==> items@[i].enabled && items@[i].label@ == spec_menu_label(
                items@[i].id,
            ),
{
    let mut items: Vec<MenuItemDef> = Vec::new();
    items.push(MenuItemDef { id: MenuId::Open, label: menu_label(MenuId::Open), enabled: true });
    items.push(
        MenuItemDef { id: MenuId::AddHabit, label: menu_label(MenuId::AddHabit), enabled: true },
    );
    items.push(MenuItemDef { id: MenuId::Quit, label: menu_label(MenuId::Quit), enabled: true });
    items
}

/// Registering a menu item and later dispatching on the identifier it
/// reports always finds that same item again.
pub proof fn lemma_menu_id_round_trip(m: MenuId)
    ensures
        spec_parse_menu_id(spec_menu_id(m)) == Some(m),
{
    reveal_strlit("open");
    reveal_strlit("add_habit");
    reveal_strlit("quit");
    assert("open"@.len() == 4);
    assert("add_habit"@.len() == 9);
    assert("quit"@.len() == 4);
    assert("quit"@[0] == 'q' && "open"@[0] == 'o');
    assert("quit"@ != "open"@);
}

} // verus!
