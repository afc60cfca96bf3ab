[package]
name = "talking_head"
version = "0.1.0"
edition = "2021"
publish = false

[dependencies]
nix = { version = "0.29", features = ["signal", "process"] }
clap = { version = "4", features = ["derive"] }
serde = { version = "1", features = ["derive"] }
serde_json = "1"
gtk4 = { version = "0.9", features = ["v4_12"] }
gdk4 = "0.9"
gio = "0.20"
glib = "0.20"
gstreamer = "0.23"
gstreamer-app = "0.23"
gtk4-layer-shell = "0.4"
ksni = "0.2"
