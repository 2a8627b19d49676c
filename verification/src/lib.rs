//! The verified core of an ASCII 3D scene editor.

use vstd::prelude::*;

// Foundations: text, keys, plane geometry, the character canvas.
pub mod text;
pub mod keys;
pub mod geometry2d;
pub mod canvas;
pub mod rng;

// The shared editor model: session, panels, menus, key handling.
pub mod editor_core;
pub mod editor_ui;
pub mod input;
pub mod menu;
pub mod navigation;

// The terminal application: its state pieces, routing and popups.
pub mod terminal_state;
pub mod terminal_commands;
pub mod key_routing;
pub mod scene_browser;
pub mod debug_console;
pub mod popups;
pub mod camera_viewport;

// Scenes and assets: files, pickers, manifests and their rules.
pub mod paths;
pub mod scene_files;
pub mod pickers;
pub mod a3d_rules;
pub mod group_expansion;
pub mod axis_rules;
pub mod scene_config;
pub mod glyphs;
pub mod mesh_edges;
pub mod geo_map;

// The viewers and the native editor.
pub mod viewer_input;
pub mod earth_viewer;
pub mod native_targets;
pub mod labels;
