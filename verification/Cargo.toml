[package]
name = "tag_sync"
version = "0.1.0"
edition = "2021"
publish = false

[dependencies]
anyhow = "=1.0.104"
async-trait = "=0.1.92"
git2 = "=0.21.0"
itertools = "=0.15.0"
log = "=0.4.34"
octocrab = "=0.47.1"
paste = "=1.0.15"
pretty_env_logger = "=0.5.0"
regex = "=1.13.1"
reqwest = "=0.13.5"
strum = { version = "=0.28.0", features = ["derive"] }
tokio = { version = "=1.54.1", features = ["macros", "rt-multi-thread"] }
