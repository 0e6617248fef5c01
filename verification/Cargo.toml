[package]
name = "acc_service"
version = "0.1.0"
edition = "2021"
publish = false

[dependencies]
aes-gcm = "=0.10.3"
p256 = { version = "=0.13.2", features = ["ecdh"] }
hkdf = "=0.12.4"
sha2 = "=0.10.9"
hex = "=0.4.3"
rand_core = { version = "=0.6.4", features = ["getrandom"] }
serde = { version = "=1.0.229", features = ["derive"] }
serde_json = "=1.0.154"
jsonrpc-core = "=18.0.0"
jsonrpc-derive = "=18.0.0"
anyhow = "=1.0.104"
log = { version = "=0.4.34", features = ["std"] }
chrono = "=0.4.45"
lazy_static = "=1.5.1"
secure-string = "=0.3.0"
dirs-next = "=2.0.0"
hyper = { version = "=0.14.32", features = ["server", "http1", "tcp"] }
tokio = { version = "=1.54.1", features = ["rt-multi-thread", "macros", "sync", "signal"] }
rocksdb = "=0.25.0"
os_info = "=3.15.0"
auto-launch = "=0.6.0"
