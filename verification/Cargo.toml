[package]
name = "pulsar2db"
version = "0.1.0"
edition = "2021"
publish = false

[dependencies]
anyhow = "1"
chrono = { version = "0.4", features = ["serde"] }
env_logger = "0.11"
envy = "0.4"
futures = "0.3"
log = "0.4"
# Not imported by this crate: pulsar 4.0.0 asks for nom "7.0.0-alpha1" and
# still uses its macro API, which the final nom 7 releases removed; without
# this exact pin cargo selects nom 7.1 and pulsar no longer compiles.
nom = "=7.0.0-alpha1"
pulsar = "=4.0.0"
serde = { version = "1", features = ["derive"] }
serde_json = "1"
tokio = { version = "1", features = ["macros", "rt-multi-thread"] }
tokio-postgres = { version = "0.7", features = ["with-chrono-0_4"] }
