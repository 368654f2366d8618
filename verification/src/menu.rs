//! The application-menu decisions: which notification the front end gets for
//! a given menu item.  Building the native menu and emitting the event are
//! the host's business; the mapping itself is decided here.

use vstd::prelude::*;

verus! {

/// Event name for the "New" menu action.
pub const MENU_NEW_FILE_EVENT: &'static str = "menu-new-file";

/// Event name for the "Open..." menu action.
pub const MENU_OPEN_FILE_EVENT: &'static str = "menu-open-file";

/// Event name for the "Save" menu action.
pub const MENU_SAVE_FILE_EVENT: &'static str = "menu-save-file";

/// Event name for the "Save As..." menu action.
pub const MENU_SAVE_AS_FILE_EVENT: &'static str = "menu-save-as-file";

/// The event the front end is notified with for a menu-item identifier;
/// `None` for identifiers that carry no notification.
pub open spec fn menu_event_spec(id: Seq<char>) -> Option<Seq<char>> {
    if id == "new_file"@ {
        Some("menu-new-file"@)
    } else if id == "open_file"@ {
        Some("menu-open-file"@)
    } else if id == "save_file"@ {
        Some("menu-save-file"@)
    } else if id == "save_as_file"@ {
        Some("menu-save-as-file"@)
    } else {
        None
    }
}

/// Character-by-character string equality.
fn str_eq(a: &str, b: &str) -> (r: bool)
    ensures
        r == (a@ == b@),
{
    let n = a.unicode_len();
    if n != b.unicode_len() {
        proof {
            assert(a@ != b@);
        }
        return false;
    }
    let mut i: usize = 0;
    while i < n
        invariant
            i <= n,
            n == a@.len(),
            n == b@.len(),
            forall|k: int| 0 <= k < i ==> a@[k] == b@[k],
        decreases n - i,
    {
        if a.get_char(i) != b.get_char(i) {
            proof {
                assert(a@ != b@);
            }
            return false;
        }
        i += 1;
    }
    proof {
        assert(a@ =~= b@);
    }
    true
}

/// Decides the menu notification for a menu-item identifier, mirroring the
/// original dispatch: the four file-menu actions notify the front end, every
/// other identifier is ignored.
pub fn menu_event_for_id(id: &str) -> (r: Option<&'static str>)
    ensures
        r matches Some(e) ==> menu_event_spec(id@) == Some(e@),
        r is None ==> menu_event_spec(id@) is None,
{
    if str_eq(id, "new_file") {
        Some("menu-new-file")
    } else if str_eq(id, "open_file") {
        Some("menu-open-file")
    } else if str_eq(id, "save_file") {
        Some("menu-save-file")
    } else if str_eq(id, "save_as_file") {
        Some("menu-save-as-file")
    } else {
        None
    }
}

} // verus!
