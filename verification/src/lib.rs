pub mod document;
pub mod editor;
pub mod info;
pub mod row;
pub mod text;

pub use document::Document;
pub use editor::{Editor, Frame, Key, Position, Size};
pub use row::Row;
