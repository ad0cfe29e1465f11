[package]
name = "root_market_maker"
version = "0.1.0"
edition = "2021"
publish = false

[dependencies]
anchor-lang = "=0.27.0"
anchor-spl = { version = "=0.27.0", default-features = false, features = ["token"] }
openbook-v2 = "=0.1.0"
