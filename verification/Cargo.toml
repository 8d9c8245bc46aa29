[package]
name = "lirstings"
version = "0.1.0"
edition = "2021"
publish = false

[dependencies]
anyhow = "=1.0.104"
clap = { version = "=4.6.7", features = ["derive", "env"] }
serde = { version = "=1.0.229", features = ["derive"] }
serde_json = "=1.0.151"
syntastica = { version = "=0.5.0", features = ["serde"] }
syntastica-parsers = { version = "=0.5.0", default-features = false, features = ["c", "cpp", "go", "java", "javascript", "json", "lua", "python", "toml"] }
syntastica-themes = "=0.5.0"
