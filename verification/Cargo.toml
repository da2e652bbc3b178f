[package]
name = "dmenu_notify"
version = "0.1.0"
edition = "2021"
publish = false

[dependencies]
clap = "2"
dmenu_facade = "*"
serde = { version = "1", features = ["derive"] }
zbus = "1"
zvariant = "2"
