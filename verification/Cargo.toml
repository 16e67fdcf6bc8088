[package]
name = "image_security"
version = "0.1.0"
edition = "2021"
publish = false

[dependencies]
anyhow = "1"
async-trait = "0.1"
base64 = "0.13"
dircpy = "0.3"
fs_extra = "1"
nix = "0.26"
oci-distribution = { version = "0.9", default-features = false, features = ["rustls-tls"] }
prost = "0.11"
sequoia-openpgp = { version = "1", default-features = false, features = ["compression-deflate", "crypto-rust", "allow-experimental-crypto", "allow-variable-time-crypto"] }
serde = { version = "1", features = ["derive"] }
serde_json = "1"
serde_yaml = "0.8"
strum = "0.24"
strum_macros = "0.24"
tokio = { version = "1", features = ["rt"] }
tonic = "0.8"
url = "2"
