//! The static menu tree, as a plan the shell turns into platform menus.
//!
//! The tree has two nodes: the top-level bar, holding the File popup anchor
//! and the About command, and the File popup, holding the Exit command. The
//! plan lists each node's entries in insertion order; the shell creates the
//! platform menus, performs the insertions, and attaches the bar to the
//! window at creation, after which the platform owns the resources.

use vstd::prelude::*;

use crate::{known_menu_id, IDM_ABOUT, IDM_EXIT, IDM_FILE};

verus! {

/// One entry of a menu node.
#[derive(Clone, Copy, PartialEq, Eq, Debug)]
pub enum MenuEntry {
    /// Anchors the popup submenu under the bar; selecting it opens the
    /// popup rather than sending a command.
    PopupAnchor { id: u64, label: &'static str },
    /// A plain command item; selecting it sends its id as a Command event.
    CommandItem { id: u64, label: &'static str },
}

/// The whole two-node menu tree: the bar's entries and the File popup's
/// entries, each in insertion order.
#[derive(Debug)]
pub struct MenuPlan {
    pub bar: Vec<MenuEntry>,
    pub file_popup: Vec<MenuEntry>,
}

/// The command id an entry carries.
pub open spec fn entry_id(e: MenuEntry) -> u64 {
    match e {
        MenuEntry::PopupAnchor { id, .. } => id,
        MenuEntry::CommandItem { id, .. } => id,
    }
}

/// Every id the tree carries, bar first, then the popup.
pub open spec fn plan_ids(m: MenuPlan) -> Seq<u64> {
    m.bar@.map_values(|e: MenuEntry| entry_id(e)) + m.file_popup@.map_values(
        |e: MenuEntry| entry_id(e),
    )
}

/// Command ids are unique across the whole tree.
pub open spec fn menu_ids_unique(m: MenuPlan) -> bool {
    forall|i: int, j: int|
        0 <= i < j < plan_ids(m).len() ==> plan_ids(m)[i] != plan_ids(m)[j]
}

/// Build the menu plan: the bar holds the File popup anchor and the About
/// command; the popup holds the Exit command, reachable through an
/// underline-marked hotkey letter like the other labels.
pub fn build_menu() -> (m: MenuPlan)
    ensures
        m.bar@.len() == 2,
        (m.bar@[0] matches MenuEntry::PopupAnchor { id, label } && id == IDM_FILE && label@
            == "&File"@),
        (m.bar@[1] matches MenuEntry::CommandItem { id, label } && id == IDM_ABOUT && label@
            == "&About"@),
        m.file_popup@.len() == 1,
        (m.file_popup@[0] matches MenuEntry::CommandItem { id, label } && id == IDM_EXIT && label@
            == "E&xit"@),
        menu_ids_unique(m),
        forall|i: int| 0 <= i < plan_ids(m).len() ==> known_menu_id(#[trigger] plan_ids(m)[i]),
{
    let mut bar: Vec<MenuEntry> = Vec::new();
    bar.push(MenuEntry::PopupAnchor { id: IDM_FILE, label: "&File" });
    bar.push(MenuEntry::CommandItem { id: IDM_ABOUT, label: "&About" });
    let mut file_popup: Vec<MenuEntry> = Vec::new();
    file_popup.push(MenuEntry::CommandItem { id: IDM_EXIT, label: "E&xit" });
    let m = MenuPlan { bar, file_popup };
    proof {
        assert(plan_ids(m) =~= seq![IDM_FILE, IDM_ABOUT, IDM_EXIT]);
    }
    m
}

} // verus!
