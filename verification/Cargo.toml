[package]
name = "termboard"
version = "0.1.0"
edition = "2021"
publish = false

[dependencies]
uuid = { version = "=1.29.0", features = ["v4"] }
unicode-width = "=0.1.14"
tui = { version = "=0.19.0", default-features = false, features = ["termion"] }
termion = "=1.5.6"
log = "=0.4.34"
simplelog = "=0.12.2"
treexml = "=0.7.0"
handlebars = "=6.4.4"
serde_json = "=1.0.154"
