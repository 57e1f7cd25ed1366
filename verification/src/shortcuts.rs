use vstd::prelude::*;

verus! {

/// One row of the shortcut list: the keys as they are pressed, and what they
/// do.
pub struct Shortcut {
    pub keys: &'static str,
    pub description: &'static str,
}

/// The keyboard shortcut list: each row's keys, as they are pressed, and
/// what they do.
pub open spec fn shortcut_table() -> Seq<(Seq<char>, Seq<char>)> {
    seq![
        ("Type"@, "search the clipboard history"@),
        ("Enter / Ctrl+V"@, "paste the highlighted entry"@),
        ("Ctrl+Shift+V"@, "paste it as plain text"@),
        ("Ctrl+0-9"@, "paste the Nth recent entry"@),
        ("Ctrl+Shift+0-9"@, "paste the Nth favorite"@),
        ("Up / Down"@, "move the highlight"@),
        ("Home / End"@, "jump to the first or last entry"@),
        ("PgUp / PgDn"@, "move by a page"@),
        ("Left / Right"@, "collapse or expand Favorites, or open or close the details of the highlighted entry"@),
        ("Ctrl+Shift+Up/Down"@, "move a favorite earlier or later"@),
        ("Ctrl+D"@, "toggle details"@),
        ("Delete"@, "delete the highlighted entry"@),
        ("Ctrl+R"@, "reload the database"@),
        ("Ctrl+Tab / Ctrl+Shift+Tab"@, "cycle tabs"@),
        ("Alt+1-5"@, "jump to a tab: All, Text, Images, Favorites, Settings"@),
        ("Alt+X / Alt+M"@, "cycle the search kind: plain, RegEx, MIME"@),
        ("?"@, "toggle this list"@),
        ("Esc"@, "clear the search, close details, then close the window"@),
    ]
}

/// The keyboard shortcut list that the `?` view shows, in display order.
pub fn shortcuts() -> (list: Vec<Shortcut>)
    ensures
        list@.len() == shortcut_table().len(),
        forall|i: int|
            0 <= i < list@.len() ==> (#[trigger] list@[i].keys@, list@[i].description@)
                == shortcut_table()[i],
{
    vec![
        Shortcut { keys: "Type", description: "search the clipboard history" },
        Shortcut { keys: "Enter / Ctrl+V", description: "paste the highlighted entry" },
        Shortcut { keys: "Ctrl+Shift+V", description: "paste it as plain text" },
        Shortcut { keys: "Ctrl+0-9", description: "paste the Nth recent entry" },
        Shortcut { keys: "Ctrl+Shift+0-9", description: "paste the Nth favorite" },
        Shortcut { keys: "Up / Down", description: "move the highlight" },
        Shortcut { keys: "Home / End", description: "jump to the first or last entry" },
        Shortcut { keys: "PgUp / PgDn", description: "move by a page" },
        Shortcut {
            keys: "Left / Right",
            description: "collapse or expand Favorites, or open or close the details of the highlighted entry",
        },
        Shortcut { keys: "Ctrl+Shift+Up/Down", description: "move a favorite earlier or later" },
        Shortcut { keys: "Ctrl+D", description: "toggle details" },
        Shortcut { keys: "Delete", description: "delete the highlighted entry" },
        Shortcut { keys: "Ctrl+R", description: "reload the database" },
        Shortcut { keys: "Ctrl+Tab / Ctrl+Shift+Tab", description: "cycle tabs" },
        Shortcut { keys: "Alt+1-5", description: "jump to a tab: All, Text, Images, Favorites, Settings" },
        Shortcut { keys: "Alt+X / Alt+M", description: "cycle the search kind: plain, RegEx, MIME" },
        Shortcut { keys: "?", description: "toggle this list" },
        Shortcut {
            keys: "Esc",
            description: "clear the search, close details, then close the window",
        },
    ]
}

} // verus!
