[package]
name = "bevy_ui_extras"
version = "0.1.0"
edition = "2021"
publish = false

[dependencies]
bevy_app = "=0.16.1"
bevy_derive = "=0.16.1"
bevy_diagnostic = "=0.16.1"
bevy_ecs = "=0.16.1"
bevy_input = "=0.16.1"
bevy_log = "=0.16.1"
bevy_reflect = "=0.16.1"
bevy_state = "=0.16.1"
bevy_utils = "=0.16.1"
bevy_window = "=0.16.1"
colorgrad = "=0.7.2"
egui = "=0.31.1"
egui_extras = "=0.31.1"
egui_tiles = "=0.12.0"
pretty-type-name = "=1.0.1"
strum = "=0.27.2"
strum_macros = "=0.27.2"
