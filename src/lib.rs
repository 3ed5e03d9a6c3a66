pub mod cpu;
pub mod emu;
pub mod laws;
pub mod state;

pub use emu::Emu;
pub use state::{SCREEN_HEIGHT, SCREEN_WIDTH};
