[package]
name = "asusctl"
version = "0.1.0"
edition = "2021"
publish = false

[dependencies]
gif = "=0.13.3"
glam = "=0.24.2"
serde = { version = "=1.0.229", features = ["derive"] }
serde_derive = "=1.0.229"
log = "=0.4.34"
async-trait = "=0.1.92"
smol = "=1.3.0"
zbus = "=3.14.1"
logind-zbus = "=3.1.2"
dbus = { version = "=0.9.12", features = ["vendored"] }
nix = { version = "=0.26.4", default-features = false, features = ["user"] }
