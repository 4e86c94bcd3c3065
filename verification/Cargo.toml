[package]
name = "chrome_valet"
version = "0.1.0"
edition = "2021"
publish = false

[dependencies]
anyhow = "1"
clap = { version = "4", features = ["derive"] }
cli-clipboard = "0.4"
device_query = "1"
futures = "0.3"
image = { version = "0.24", default-features = false, features = ["jpeg", "png"] }
log = "0.4"
registry = "1.2"
serde = { version = "1", features = ["derive"] }
serde_json = { version = "1", features = ["preserve_order"] }
simple-logging = "2"
tokio = { version = "1", features = ["macros", "rt-multi-thread"] }
utfx = "0.1"
winapi = { version = "0.3", features = ["wincon"] }
