//! The presentation layer of a modal text editor.
//!
//! A mode renderer turns editor state (the open buffer, the active mode, a
//! query and its results) into the ordered draw calls of one frame, recorded
//! by a [`view::Presenter`]. Nothing here touches a terminal: the recorded
//! frame is handed to a backend, call by call, under the guidance of a
//! [`view::Painter`].

pub mod errors;
pub mod models;
pub mod presenters;
pub mod text;
pub mod view;
