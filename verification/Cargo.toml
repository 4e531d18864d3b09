[package]
name = "executor_bridge"
version = "0.1.0"
edition = "2021"
publish = false

[dependencies]
cita_cloud_proto = "=6.7.4"
cloud-util = "=0.8.2"
extism = { version = "=1.13.0", default-features = false }
extism-pdk = "=1.4.1"
parking_lot = "=0.13.0"
prost = "=0.13.5"
tonic = "=0.12.3"
tracing = "0.1"

[dev-dependencies]
wasmtime = { version = "=37.0.3", default-features = false }
