[package]
name = "fw_pull"
version = "0.1.0"
edition = "2021"
publish = false

[dependencies]
soup = "=0.5.1"
select = "=0.6.1"
serde = { version = "=1.0.229", features = ["derive"] }
serde_json = "=1.0.151"
structopt = "=0.3.26"
tokio = { version = "=1.53.2", features = ["macros", "rt-multi-thread"] }
fantoccini = { version = "=0.22.1", default-features = false }
reqwest = { version = "=0.13.5", default-features = false }
url = "=2.5.8"
hyper-util = "=0.1.21"
