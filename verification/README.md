# Ringboard window logic

The state machine behind the Ringboard clipboard-history window, verified
with Verus: which entries a tab lists and in what order, where the keyboard
highlight moves, what each key, click and server reply does to the window's
state, which requests go out to the clipboard server, and how the Settings
tab reads its numbers.

- `src/` is the verified library: `entries` (tabs, sections, navigation
  order), `pipeline` (the image caches), `text` (reading and writing
  numbers), `model` (the window's state as mathematical values and every
  transition), `state`, `app`, `handlers`, `keys`, `update` (the handlers
  that implement the model) and `laws` (what holds across events).
- `app/` runs the library inside an iced window and talks to the server.

## Keyboard shortcuts

| Keys | Action |
| --- | --- |
| <kbd>Type</kbd> | search the clipboard history |
| <kbd>Enter</kbd> / <kbd>Ctrl</kbd>+<kbd>V</kbd> | paste the highlighted entry |
| <kbd>Ctrl</kbd>+<kbd>Shift</kbd>+<kbd>V</kbd> | paste it as plain text |
| <kbd>Ctrl</kbd>+<kbd>0</kbd>-<kbd>9</kbd> | paste the Nth recent entry |
| <kbd>Ctrl</kbd>+<kbd>Shift</kbd>+<kbd>0</kbd>-<kbd>9</kbd> | paste the Nth favorite |
| <kbd>Up</kbd> / <kbd>Down</kbd> | move the highlight |
| <kbd>Home</kbd> / <kbd>End</kbd> | jump to the first or last entry |
| <kbd>PgUp</kbd> / <kbd>PgDn</kbd> | move by a page |
| <kbd>Left</kbd> / <kbd>Right</kbd> | collapse or expand Favorites, or open or close the details of the highlighted entry |
| <kbd>Ctrl</kbd>+<kbd>Shift</kbd>+<kbd>Up</kbd>/<kbd>Down</kbd> | move a favorite earlier or later |
| <kbd>Ctrl</kbd>+<kbd>D</kbd> | toggle details |
| <kbd>Delete</kbd> | delete the highlighted entry |
| <kbd>Ctrl</kbd>+<kbd>R</kbd> | reload the database |
| <kbd>Ctrl</kbd>+<kbd>Tab</kbd> / <kbd>Ctrl</kbd>+<kbd>Shift</kbd>+<kbd>Tab</kbd> | cycle tabs |
| <kbd>Alt</kbd>+<kbd>1</kbd>-<kbd>5</kbd> | jump to a tab: All, Text, Images, Favorites, Settings |
| <kbd>Alt</kbd>+<kbd>X</kbd> / <kbd>Alt</kbd>+<kbd>M</kbd> | cycle the search kind: plain, RegEx, MIME |
| <kbd>?</kbd> | toggle this list |
| <kbd>Esc</kbd> | clear the search, close details, then close the window |

`src/shortcuts.rs` holds this list for the window's `?` view, and a test
checks that every row of it stands in this section.
