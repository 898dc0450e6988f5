pub mod common;
pub mod drawing;
pub mod entities;
pub mod state;
