[package]
name = "rss_aggregator"
version = "0.1.0"
edition = "2021"
publish = false

[dependencies]
scraper = "*"
ammonia = "*"
url = "2"
imbl = "2"
sha3 = "0.10"
hex = "0.4"
tiny-keccak = { version = "2", features = ["sha3"] }
chrono = "0.4"
httpdate = "1"
rss = "2"
time-humanize = "0.1"
actix-web = { version = "4", default-features = false, features = ["macros", "cookies", "compress-gzip"] }
actix-files = "0.6"
sqlx = { version = "0.8", default-features = false, features = ["runtime-tokio", "sqlite"] }
tokio = { version = "1", features = ["rt-multi-thread", "macros", "sync", "time"] }
reqwest = "0.12"
maud = "*"
serde = { version = "1", features = ["derive"] }
serde_json = "1"
config = { version = "0.14", default-features = false, features = ["toml", "json", "yaml"] }
color-eyre = "0.6"
tracing = "0.1"
tracing-error = "0.2"
tracing-subscriber = { version = "0.3", features = ["env-filter"] }
thiserror = "1"
futures = "0.3"
uuid = { version = "1", features = ["v4"] }
lru_time_cache = "0.11"
