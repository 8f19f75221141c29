//! Building blocks shared by the application: text, lists, the text field
//! and the ordering of scan results.

pub mod event_handler;
pub mod filter;
pub mod focusable_text_area;
pub mod key_display;
pub mod order;
pub mod statefull_list;
pub mod text;
pub mod walker;
