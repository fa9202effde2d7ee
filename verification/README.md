# unilii

A verified library for the desktop panel "unilii": its tray menu, clipboard
picker, window switchers, hotkey daemon and headless bar, written in Verus.
The decisions, parsers and state machines of these programs stand in `src/`
with contracts that Verus proves; `app/` holds the thin program around them
(argument handling, file and process I/O, the serde and TOML copies of the
library's types).

Layout of `src/` by area:

- tray menu: `tray_core`, `tray_tree`, `tray_dbus`, `dbus_layout`,
  `menu_order`, `tray_state`, `tray_selection`, `tray_keys`,
  `tray_window_keys`, `tray_messages`, `tray_daemon`, `theme_icons`,
  `menu_icons`, `view_header`, `quickjump`, `system_menu`, `system_actions`,
  `mounts`, `calendar_agenda`;
- clipboard picker: `copyq`, `copyq_state`;
- window switchers: `i3_tree`, `i3_vis`, `filter_tab`;
- hotkey daemon: `hotkeys`, `key_dry_run`, `supervisor`, `hotkey_status`;
- bar and shared runtime: `bar_cli`, `bar_control`, `bar_watch`, `cli`,
  `app_config`, `introspection`, `action_runner`, `action_routing`,
  `runtime_metrics`;
- helpers: `text`, `names`, `stable_sort`.

The tests under `tests/` exercise the library on concrete values.
