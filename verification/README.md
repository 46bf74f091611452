# visual_novel

The logic of a visual novel, verified with Verus, and the game around it.

`src/` is the verified library:

- `text`: trimming, searching, splitting and filling in `{}` on characters;
- `character`: where characters stand on the scene;
- `dialogue`: reading dialogue scripts (a header of characters, then lines
  `short - text`) and filling in the player's name;
- `dialogue_box`: progress through the dialogue of a page;
- `page_table`: the binary page table and turning pages;
- `settings`: values of the settings files;
- `interface`: alignment kinds, input enumerations, and the press/release
  logic of buttons, lists and text fields;
- `menu`: what the buttons of the menus say and do;
- `page_events`: what the main menu's name entry and the settings page do on
  each input event;
- `loading`: the frame-counted animations of the loading screen and menu.

`app/` is the game: the window, audio, drawing, files, and the floating-point
geometry of the widgets, calling the library for the decisions.

`tests/` runs the library on concrete inputs.
