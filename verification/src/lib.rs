//! The decision logic of a data viewer: what its panels, dialogs and menus say and do,
//! kept apart from the code that draws them.
pub mod app_card;
pub mod command;
pub mod context_menu;
pub mod daft_link;
pub mod data_source;
pub mod dev_panel;
pub mod dialogs;
pub mod effects;
pub mod hidden_recordings;
pub mod i18n;
pub mod icons;
pub mod item_ui;
pub mod lists;
pub mod mobile_warning;
pub mod native_config;
pub mod open_url_description;
pub mod platform;
pub mod recent_datasets;
pub mod recording_panel;
pub mod session_restore;
pub mod settings;
pub mod store_button;
pub mod store_card;
pub mod store_id;
pub mod text;
pub mod time;
pub mod user_guide;
pub mod view_class_placeholder;
pub mod viewer_config;
pub mod welcome;
