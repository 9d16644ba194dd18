pub mod laws;
pub mod rows;
pub mod state;
pub mod value;
