[package]
name = "module_host"
version = "0.1.0"
edition = "2021"
publish = false

[dependencies]
async-graphql-parser = "=7.2.1"
heck = "=0.5.0"
seaography = "=2.0.0-rc.9"
sea-orm = { version = "=2.0.4", features = ["sqlx-sqlite", "runtime-tokio"] }
sea-orm-migration = { version = "=2.0.4", default-features = false }
tokio = { version = "=1.54.1", features = ["sync"] }
futures-util = "=0.3.34"
async-trait = "=0.1.92"
syn = { version = "=2.0.119", features = ["full"] }
quote = "=1.0.47"
proc-macro2 = "=1.0.107"
