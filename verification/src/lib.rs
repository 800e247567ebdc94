//! An interactive sticky-note board laid over three fixed circular regions
//! ("Fun", "Done", "Learn"). Notes are free-text boxes that can be dragged
//! around the board; whenever a drag ends, the note's category memberships
//! are recomputed from where its center lies relative to the three circles.
//! Membership is derived from placement, never edited directly.

pub mod circle;
pub mod note;
pub mod store;

pub use circle::Circle;
pub use circle::Point;
pub use note::Fdl;
pub use note::Note;
pub use store::NoteStore;
pub use store::StoreError;
