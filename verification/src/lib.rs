//! The logic of a visual novel: dialogue scripts, page tables, settings
//! values and the state of its interface widgets.
pub mod text;
pub mod character;
pub mod dialogue;
pub mod page_table;
pub mod settings;
pub mod interface;
pub mod dialogue_box;
pub mod menu;
pub mod loading;
pub mod page_events;
