[package]
name = "adboost"
version = "3.2.2"
edition = "2021"
publish = false

[dependencies]
clap = { version = "4", features = ["derive"] }
futures-util = "0.3"
libc = "0.2"
nusb = { version = "0.2", features = ["tokio"] }
tabwriter = "1"
tokio = { version = "1", features = ["full"] }
tracing = "0.1"
tracing-subscriber = { version = "0.3", features = ["env-filter"] }
trait-variant = "0.1"
