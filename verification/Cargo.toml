[package]
name = "match_monitor"
version = "0.1.0"
edition = "2021"
publish = false

[dependencies]
sysinfo = "0.29"
tokio = { version = "1", features = ["macros", "rt-multi-thread", "sync", "time", "fs"] }
reqwest = { version = "0.11", default-features = false, features = ["json"] }
oauth2 = { version = "4", default-features = false, features = ["reqwest"] }
serde_json = "1"
dotenv = "0.15"
