[package]
name = "iplan_views"
version = "0.1.0"
edition = "2021"
publish = false

[dependencies]
glib = "*"
gtk4 = "*"
libadwaita = "*"
gettext-rs = { version = "*", features = ["gettext-system"] }
