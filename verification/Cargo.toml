[package]
name = "buongiornissimo-rs"
version = "0.3.0"
edition = "2021"
publish = false

[dependencies]
async-trait = "=0.1.92"
chrono = "=0.4.45"
reqwest = "=0.12.28"
scraper = "=0.29.0"
thiserror = "=2.0.21"
url = "=2.5.8"

[dev-dependencies]
bdays = "=0.1.4"
