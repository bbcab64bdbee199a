pub mod events;
pub mod model;
pub mod reducer;
pub mod state;
pub mod laws;
pub mod outcomes;
