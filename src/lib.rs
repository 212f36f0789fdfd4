pub mod time;
pub mod lemmas;
pub mod log;
pub mod state;
pub mod vcr;
