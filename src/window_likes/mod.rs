pub mod app_window;
pub mod desktop_background;
pub mod lock_screen;
pub mod start_menu;
pub mod taskbar;
pub mod workspace_indicator;
