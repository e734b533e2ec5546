[package]
name = "github_star_counter"
version = "0.1.0"
edition = "2021"
publish = false

[dependencies]
base64 = "0.13"
bytesize = "*"
futures = "0.3"
log = "*"
serde = { version = "*", features = ["derive"] }
serde_json = "*"
simple_logger = "*"
structopt = "*"
surf = { version = "*", default-features = false, features = ["h1-client-rustls"] }
tera = { version = "*", default-features = false }
tokio = { version = "*", features = ["macros", "rt-multi-thread"] }
