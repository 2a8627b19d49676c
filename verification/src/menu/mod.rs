pub mod model;

pub use model::{draw_menu, MenuItem, MenuKind, MenuState};
