[package]
name = "v5gdb"
version = "0.1.0"
edition = "2021"
publish = false

[dependencies]
cobs = "=0.5.1"
bytemuck = { version = "=1.25.2", features = ["must_cast"] }
vex-sdk = "=0.29.0"
gdbstub = "=0.7.10"
spin = "=0.12.3"
log = "=0.4.35"
anyhow = "=1.0.104"
tokio = { version = "=1.54.1", features = ["full"] }
vex-v5-serial = "=0.5.2"
serde_json = "=1.0.154"
toml = "=1.1.8"
clap = { version = "=4.6.7", features = ["derive"] }
cargo_metadata = "=0.23.1"
fs_extra = "=1.3.0"
indicatif = "=0.18.6"
nix = { version = "=0.31.3", features = ["signal", "process"] }
