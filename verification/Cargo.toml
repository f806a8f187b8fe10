[package]
name = "rx_repack"
version = "0.1.0"
edition = "2021"
publish = false

[dependencies]
anyhow = "1"
camino = "1"
clap = { version = "4", features = ["derive"] }
dicom = { version = "0.6", default-features = false }
fs-err = "2"
hashbrown = { version = "0.14", features = ["serde"] }
itertools = "0.11"
seahash = "4"
serde = { version = "1", features = ["derive"] }
serde_json = "1"
thiserror = "1"

[dev-dependencies]
regex = "1"
