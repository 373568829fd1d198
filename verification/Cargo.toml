[package]
name = "adbc_flightsql"
version = "0.1.0"
edition = "2021"
publish = false

[dependencies]
adbc_core = "=0.23.0"
arrow-array = "58"
arrow-buffer = "58"
arrow-flight = { version = "58", features = ["flight-sql"] }
arrow-schema = "58"
futures = "0.3"
prost = "0.14"
reqwest = { version = "0.12", default-features = false, features = ["blocking", "json", "rustls-tls"] }
serde = { version = "1", features = ["derive"] }
tokio = { version = "1", features = ["rt-multi-thread", "macros", "net", "time"] }
tonic = { version = "0.14", features = ["tls-ring", "tls-native-roots"] }
url = "2"

[dev-dependencies]
arrow-ipc = "58"
