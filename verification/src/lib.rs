//! Route switching core.

pub mod adapter_reconfig;
pub mod adapters;
pub mod addr;
pub mod address_laws;
pub mod autostart;
pub mod autostart_laws;
pub mod control_laws;
pub mod controller;
pub mod desk_laws;
pub mod display;
pub mod encoding;
pub mod error;
pub mod forms;
pub mod health_laws;
pub mod health_monitor;
pub mod icon;
pub mod inspector;
pub mod ip_text;
pub mod ipc_client;
pub mod ipc_server;
pub mod json;
pub mod log_laws;
pub mod log_prune;
pub mod logs;
pub mod method;
pub mod net_laws;
pub mod netsh;
pub mod notify;
pub mod number;
pub mod operation_laws;
pub mod overlay_laws;
pub mod program_laws;
pub mod protocol;
pub mod protocol_laws;
pub mod reconfig_laws;
pub mod restore;
pub mod result_laws;
pub mod route_laws;
pub mod route_overlay;
pub mod service_host;
pub mod state;
pub mod state_store;
pub mod storage_laws;
pub mod switch_engine;
pub mod switch_laws;
pub mod table_laws;
pub mod text;
pub mod text_laws;
pub mod tray;
pub mod ui_state;
pub mod watch_laws;
pub mod window_laws;
