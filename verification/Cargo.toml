[package]
name = "rsyslog-ssh-geoip-pipeline"
version = "0.1.0"
edition = "2021"
publish = false

[dependencies]
async-trait = "=0.1.92"
clap = "=2.34.0"
geo-types = "=0.7.20"
geohash = "=0.13.2"
influx_db_client = "=0.7.0"
maxminddb = "=0.32.0"
reqwest = { version = "=0.13.5", features = ["json"] }
s2 = "=0.2.0"
serde = { version = "=1.0.229", features = ["derive"] }
serde_json = "=1.0.154"
tokio = { version = "=1.54.1", features = ["full"] }
