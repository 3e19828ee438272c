[package]
name = "wattbar"
version = "0.1.0"
edition = "2021"
publish = false

[dependencies]
anyhow = "=1.0.104"
calloop = "=0.12.4"
clap = { version = "=4.6.7", features = ["derive"] }
cssparser = "=0.33.0"
cssparser-color = "=0.1.0"
lazy-regex = "=3.6.2"
once_cell = "=1.21.4"
palette = "=0.7.7"
smithay-client-toolkit = { version = "=0.18.1", default-features = false, features = ["calloop"] }
thiserror = "=1.0.69"
upower_dbus = "=0.3.2"
wayland-client = "=0.31.15"
xdg = "=2.5.2"
zbus = "=3.15.2"
