[package]
name = "bevy_xilem"
version = "0.1.0"
edition = "2021"
publish = false

[dependencies]
fluent = "=0.17.0"
intl-memoizer = "=0.5.3"
unic-langid = "=0.9.6"
crossbeam-queue = "=0.3.14"
sysuri = "=0.4.0"
bevy_ecs = "=0.17.3"
bevy_app = "=0.17.3"
bevy_time = "=0.17.3"
bevy_input = "=0.17.3"
bevy_window = "=0.17.3"
interprocess = "=2.4.7"
single-instance = "=0.3.3"
tracing = "=0.1.44"
tracing-subscriber = { version = "=0.3.23", features = ["env-filter", "fmt"] }
