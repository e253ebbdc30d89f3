[package]
name = "flatcrawl"
version = "0.1.0"
edition = "2021"
publish = false

[dependencies]
kuchiki = "=0.8.1"
encoding_rs = "=0.8.42"
chrono = "=0.4.45"
url = "=2.5.8"
serde = "=1.0.229"
serde_derive = "=1.0.229"
serde_json = "=1.0.151"
config = "=0.15.27"
firestore-db-and-auth = "=0.8.0"

[dependencies.reqwest]
version = "=0.13.5"
default-features = false
features = ["blocking", "json"]

[dependencies.tokio]
version = "*"
features = ["rt"]
