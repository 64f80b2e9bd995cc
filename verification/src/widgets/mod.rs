pub mod app_status;
pub mod components_view;
pub mod debug_menu;
