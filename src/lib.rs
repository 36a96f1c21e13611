//! Student report cards: exact grading arithmetic, text rendering and page
//! layout as a list of drawing operations.

pub mod grading;
pub mod decimal;
pub mod text;
pub mod layout;
