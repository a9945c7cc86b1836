[package]
name = "fluvio_entry"
version = "0.1.0"
edition = "2021"
publish = false

[dependencies]
which = "=8.0.6"
anyhow = "=1.0.104"
clap = { version = "=4.6.7", features = ["derive", "env", "string"] }
clap_complete = "=4.6.11"
semver = "=1.0.28"
tracing = "=0.1.44"
k8-client = "=15.0.1"
fluvio-future = { version = "=0.8.3", features = ["openssl_tls"] }
fluvio-types = "=0.50.1"
fluvio-extension-common = "=0.50.1"
fluvio-spu-schema = "=0.50.1"

[dev-dependencies]
k8-config = "=3.0.0"
openssl = "=0.10.81"
tempfile = "=3.27.0"
