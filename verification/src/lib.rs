//! The logic of the Ifecaro interactive fiction reader and its editor: the
//! story data and its JSON, impacts on characters and relationships,
//! multi-attribute checks, the node runtime, the choice editor's state
//! transitions, the reader page's decisions (keys, overlays, countdowns,
//! searches, titles, settings), the deployment settings, and the rules of
//! the project's command-line tools.

pub mod address;
pub mod chapter_context;
pub mod choice_impacts_editor;
pub mod choice_options;
pub mod choices_reducer;
pub mod config;
pub mod dropdown;
pub mod impacts;
pub mod json;
pub mod keyed;
pub mod language_context;
pub mod language_selector;
pub mod layout;
pub mod multi_attr_check;
pub mod navbar;
pub mod paragraph_context;
pub mod paragraph_list;
pub mod route;
pub mod settings;
pub mod story;
pub mod story_content;
pub mod story_context;
pub mod story_runtime;
pub mod style;
pub mod text;
pub mod toast;
pub mod tooling;
pub mod translation_form;
pub mod translations;
