# viewer_logic

The decisions behind the user interface of a data viewer, verified with Verus: what its panels,
menus, cards and dialogs show, in which language, and what a click, a key press or an answer from
a server leads to.

The library draws nothing and reads nothing. Each part takes what it has to know as plain values,
and gives back texts, lists of rows and `Effect`s. The contract of a function says exactly which
ones; properties that span several functions are public proof functions whose names begin with
`law_`.

| Where | What |
| --- | --- |
| `src/command/` | the commands, their texts and shortcuts, and typing a playback speed |
| `src/recording_panel/` | the list of servers, datasets and recordings, and moving through it |
| `src/dialogs/` | opening datasets, the settings that servers hand out, deleting copies |
| `src/welcome/` | the start page |
| `src/dev_panel/` | the panel for developers of the viewer |
| `src/settings.rs`, `src/viewer_config.rs`, `src/native_config.rs` | settings of the user and of a deployment |
| `src/recent_datasets.rs`, `src/session_restore.rs` | what was open, and bringing it back |
| `src/daft_link.rs` | links into the console that diagnoses datasets |
| `src/store_button.rs`, `src/store_card.rs`, `src/app_card.rs`, `src/item_ui.rs` | rows and cards of recordings and other items |
| `src/text.rs` | joining and splitting text |
| `tests/` | the library on concrete values |
| `app/` | the drawing, with egui, and the reading of files, variables and responses |

Floating point numbers stay in `app/`: the library gets sizes and durations as integers, or as
text where they are only shown. The calls into other crates that the library makes stand in
functions marked `#[verifier::external_body]`, each with a comment that says what is relied on.
