[package]
name = "codefend_panel"
version = "0.1.0"
edition = "2021"
publish = false

[package.metadata.unbuilt]
crates = [
    "tauri",
    "tauri-plugin-cors-fetch",
    "tauri-plugin-devtools",
    "tauri-plugin-dialog",
    "tauri-plugin-fs",
    "tauri-plugin-http",
    "tauri-plugin-notification",
    "tauri-plugin-opener",
    "tauri-plugin-os",
    "tauri-plugin-process",
    "tauri-plugin-shell",
    "tauri-plugin-store",
    "tauri-plugin-updater",
    "tauri-plugin-upload",
    "tauri-plugin-window-state",
]
