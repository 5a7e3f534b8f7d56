[package]
name = "d30_cli"
version = "0.1.0"
edition = "2021"
publish = false

[dependencies]
d30 = "=0.2.3"
advmac = "=1.0.3"
bluetooth-serial-port-async = "=0.6.3"
image = "=0.24.9"
inquire = "=0.9.4"
temp-file = "=0.2.0"
toml = "=0.7.8"
serde = { version = "=1.0.229", features = ["derive"] }
xdg = "=2.5.2"
clap = { version = "=4.6.7", features = ["derive"] }
