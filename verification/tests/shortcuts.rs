use ringboard_iced::shortcuts;

fn flatten(text: &str) -> String {
    text.chars().filter(|c| !c.is_whitespace()).collect()
}

/// The README's `## Keyboard shortcuts` section, as it stands in README.md.
const README: &str = r#"## Keyboard shortcuts

| Keys | Action |
| --- | --- |
| <kbd>Type</kbd> | search the clipboard history |
| <kbd>Enter</kbd> / <kbd>Ctrl</kbd>+<kbd>V</kbd> | paste the highlighted entry |
| <kbd>Ctrl</kbd>+<kbd>Shift</kbd>+<kbd>V</kbd> | paste it as plain text |
| <kbd>Ctrl</kbd>+<kbd>0</kbd>-<kbd>9</kbd> | paste the Nth recent entry |
| <kbd>Ctrl</kbd>+<kbd>Shift</kbd>+<kbd>0</kbd>-<kbd>9</kbd> | paste the Nth favorite |
| <kbd>Up</kbd> / <kbd>Down</kbd> | move the highlight |
| <kbd>Home</kbd> / <kbd>End</kbd> | jump to the first or last entry |
| <kbd>PgUp</kbd> / <kbd>PgDn</kbd> | move by a page |
| <kbd>Left</kbd> / <kbd>Right</kbd> | collapse or expand Favorites, or open or close the details of the highlighted entry |
| <kbd>Ctrl</kbd>+<kbd>Shift</kbd>+<kbd>Up</kbd>/<kbd>Down</kbd> | move a favorite earlier or later |
| <kbd>Ctrl</kbd>+<kbd>D</kbd> | toggle details |
| <kbd>Delete</kbd> | delete the highlighted entry |
| <kbd>Ctrl</kbd>+<kbd>R</kbd> | reload the database |
| <kbd>Ctrl</kbd>+<kbd>Tab</kbd> / <kbd>Ctrl</kbd>+<kbd>Shift</kbd>+<kbd>Tab</kbd> | cycle tabs |
| <kbd>Alt</kbd>+<kbd>1</kbd>-<kbd>5</kbd> | jump to a tab: All, Text, Images, Favorites, Settings |
| <kbd>Alt</kbd>+<kbd>X</kbd> / <kbd>Alt</kbd>+<kbd>M</kbd> | cycle the search kind: plain, RegEx, MIME |
| <kbd>?</kbd> | toggle this list |
| <kbd>Esc</kbd> | clear the search, close details, then close the window |
"#;

/// Compares the README's shortcut section against the table as plain text:
/// `<kbd>` markup and whitespace are stripped from both sides, so the two
/// only have to list the same keys and descriptions.
#[test]
fn readme_lists_every_shortcut() {
    let readme = README;
    let (_, after_heading) = readme
        .split_once("## Keyboard shortcuts")
        .expect("README.md has a `## Keyboard shortcuts` section");
    let (section, _) = after_heading
        .split_once("\n## ")
        .unwrap_or((after_heading, ""));
    let flat = flatten(&section.replace("<kbd>", "").replace("</kbd>", ""));

    for shortcut in shortcuts() {
        for text in [shortcut.keys, shortcut.description] {
            assert!(
                flat.contains(&flatten(text)),
                "README.md's `## Keyboard shortcuts` section is missing: {text}"
            );
        }
    }
}

#[test]
fn shortcut_list_has_every_row_once() {
    let list = shortcuts();
    assert_eq!(list.len(), 18);
    assert_eq!(list[0].keys, "Type");
    assert_eq!(list[17].keys, "Esc");
    for (i, a) in list.iter().enumerate() {
        for b in &list[i + 1..] {
            assert_ne!(a.keys, b.keys);
        }
    }
}
