pub mod binding;
pub mod command;

pub use binding::KeyBinding;
pub use command::{
    camera_mode_command_for_key, light_mode_command_for_key, menu_command_for_key,
    scene_mode_command_for_key, AppCommand,
};
