//! The terminal shell: what it shows, what it holds and what its keys mean.
pub mod action;
pub mod browser_laws;
pub mod browsers;
pub mod cells;
pub mod cells_laws;
pub mod color_laws;
pub mod dialog_laws;
pub mod dialogs;
pub mod input;
pub mod label_laws;
pub mod labels;
pub mod palette;
pub mod pane_laws;
pub mod panes;
pub mod protocol;
pub mod render;
pub mod sanitize_laws;
pub mod state;
pub mod state_laws;
pub mod summary;
pub mod summary_laws;
pub mod theme;
pub mod theme_laws;
pub mod theme_pack;
pub mod theme_pack_laws;
pub mod transcript;
pub mod transcript_laws;
pub mod view;
pub mod view_laws;
pub mod wrap_laws;
