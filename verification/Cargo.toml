[package]
name = "faucet-server"
version = "0.1.0"
edition = "2021"
publish = false

[dependencies]
sha1 = "0.10"
base64 = "0.22"
uuid = { version = "1", features = ["v4", "v7"] }
cookie = "0.18"
url = "2"
num_cpus = "1"
rand = "0.9"
parse-size = "1"
tokio = { version = "1", features = ["full"] }
hyper = { version = "1", features = ["http1", "server", "client"] }
hyper-util = { version = "0.1", features = ["tokio"] }
http-body-util = "0.1"
deadpool = { version = "0.12", features = ["managed", "rt_tokio_1"] }
clap = { version = "4", features = ["derive", "env"] }
serde = { version = "1", features = ["derive"] }
serde_json = "1"
toml = "0.8"
env_logger = "0.11"
log = "0.4"
ctrlc = "3"
dotenv = "0.15"
tokio-tungstenite = "0.26"
futures-util = { version = "0.3", features = ["sink"] }
chrono = "0.4"
tokio-postgres = { version = "0.7", features = ["with-chrono-0_4", "with-uuid-1", "with-serde_json-1"] }
deadpool-postgres = "0.14"
rustls = { version = "0.23", default-features = false, features = ["ring", "std", "tls12", "logging"] }
tokio-postgres-rustls = "0.13"
