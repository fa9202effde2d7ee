//! Verified core logic of the unilii desktop tools: bar controls, launcher
//! helpers, tray menu trees and report rendering.

pub mod text;
pub mod names;
pub mod bar_control;
pub mod tray_core;
pub mod menu_order;
pub mod tray_dbus;
pub mod tray_tree;
pub mod copyq;
pub mod cli;
pub mod action_runner;
pub mod bar_cli;
pub mod tray_keys;
pub mod filter_tab;
pub mod i3_vis;
pub mod tray_state;
pub mod app_config;
pub mod introspection;
pub mod hotkeys;
pub mod dbus_layout;
pub mod copyq_state;
pub mod i3_tree;
pub mod key_dry_run;
pub mod mounts;
pub mod menu_icons;
pub mod system_menu;
pub mod calendar_agenda;
pub mod stable_sort;
pub mod action_routing;
pub mod supervisor;
pub mod view_header;
pub mod quickjump;
pub mod system_actions;
pub mod tray_daemon;
pub mod theme_icons;
pub mod tray_selection;
pub mod hotkey_status;
pub mod runtime_metrics;
pub mod bar_watch;
pub mod tray_window_keys;
pub mod tray_messages;
