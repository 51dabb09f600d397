[package]
name = "holochain_runtime"
version = "0.1.0"
edition = "2021"
publish = false

[dependencies]
holo_hash = { version = "=0.6.0", default-features = false, features = ["encoding", "hashing"] }
holochain_conductor_api = { version = "=0.6.0", default-features = false }
holochain_keystore = { version = "=0.6.0", default-features = false }
holochain_types = { version = "=0.6.0", default-features = false }
lair_keystore_api = { version = "=0.6.3", default-features = false }
log = "0.4"
portpicker = "0.1"
serde_yaml = "0.9"
