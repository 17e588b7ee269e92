//! The collaboration panel of the story browser, as a description that can be
//! checked: the panel is built as a tree of styled boxes, images, icons and
//! text, and what that tree holds is stated and proved here. Drawing the tree,
//! scrolling it and loading its images is the host's part.

pub mod collab_panel;
pub mod element;
pub mod style;
pub mod theme;
