//! The tray menu's item ids and what a click on each one asks for.

use crate::text::{has_prefix, str_eq, strip_prefix};
use vstd::prelude::*;
use vstd::string::*;

verus! {

/// What a click on a tray menu item asks for.
#[derive(Clone, Debug, PartialEq, Eq)]
pub enum MenuAction {
    /// Flip the master on/off switch.
    ToggleEnabled,
    /// Flip whether mouse clicks play sounds.
    ToggleMouse,
    /// Show the settings window.
    OpenSettings,
    /// Quit the app.
    Quit,
    /// Switch to the sound pack with this id (and preview it).
    SelectPack(String),
    /// An id that names no action.
    Ignore,
}

/// The view of a `MenuAction`, with the pack id as characters.
pub enum MenuActionView {
    ToggleEnabled,
    ToggleMouse,
    OpenSettings,
    Quit,
    SelectPack(Seq<char>),
    Ignore,
}

impl View for MenuAction {
    type V = MenuActionView;

    open spec fn view(&self) -> MenuActionView {
        match self {
            MenuAction::ToggleEnabled => MenuActionView::ToggleEnabled,
            MenuAction::ToggleMouse => MenuActionView::ToggleMouse,
            MenuAction::OpenSettings => MenuActionView::OpenSettings,
            MenuAction::Quit => MenuActionView::Quit,
            MenuAction::SelectPack(id) => MenuActionView::SelectPack(id@),
            MenuAction::Ignore => MenuActionView::Ignore,
        }
    }
}

/// The action of the tray item with id `id`: the fixed items by their ids,
/// and the items of the pack submenu by the prefix "pack:" before the pack id.
pub open spec fn menu_action_of(id: Seq<char>) -> MenuActionView {
    if id == "toggle_enabled"@ {
        MenuActionView::ToggleEnabled
    } else if id == "toggle_mouse"@ {
        MenuActionView::ToggleMouse
    } else if id == "open_settings"@ {
        MenuActionView::OpenSettings
    } else if id == "quit"@ {
        MenuActionView::Quit
    } else if has_prefix(id, "pack:"@) {
        MenuActionView::SelectPack(id.subrange("pack:"@.len() as int, id.len() as int))
    } else {
        MenuActionView::Ignore
    }
}

/// Read the id of a clicked tray menu item.
pub fn menu_action(id: &str) -> (res: MenuAction)
    ensures
        res@ == menu_action_of(id@),
{
    if str_eq(id, "toggle_enabled") {
        MenuAction::ToggleEnabled
    } else if str_eq(id, "toggle_mouse") {
        MenuAction::ToggleMouse
    } else if str_eq(id, "open_settings") {
        MenuAction::OpenSettings
    } else if str_eq(id, "quit") {
        MenuAction::Quit
    } else {
        match strip_prefix(id, "pack:") {
            Some(pack_id) => MenuAction::SelectPack(pack_id.to_owned()),
            None => MenuAction::Ignore,
        }
    }
}

/// The id of the pack submenu item for the pack `pack_id`.
pub fn pack_menu_id(pack_id: &str) -> (res: String)
    ensures
        res@ == "pack:"@ + pack_id@,
{
    String::from_str("pack:").concat(pack_id)
}

/// Whether the submenu item of the pack `item_pack_id` shows as checked
/// while `active_pack` is the active pack: the items act as a radio group.
pub fn pack_item_checked(item_pack_id: &str, active_pack: &str) -> (res: bool)
    ensures
        res == (item_pack_id@ == active_pack@),
{
    str_eq(item_pack_id, active_pack)
}

/// A click on the submenu item of a pack selects that very pack.
pub proof fn pack_menu_ids_round_trip(pack_id: Seq<char>)
    ensures
        menu_action_of("pack:"@ + pack_id) == MenuActionView::SelectPack(pack_id),
{
    reveal_strlit("pack:");
    reveal_strlit("toggle_enabled");
    reveal_strlit("toggle_mouse");
    reveal_strlit("open_settings");
    reveal_strlit("quit");
    let id = "pack:"@ + pack_id;
    assert(id[0] == 'p');
    assert(id.subrange(0, 5) =~= "pack:"@);
    assert(id.subrange(5, id.len() as int) =~= pack_id);
}

} // verus!
