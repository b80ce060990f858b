[package]
name = "bevy_asset_ron"
version = "0.3.0"
edition = "2021"
publish = false

[dependencies]
anyhow = "=1.0.104"
bevy = { version = "=0.6.1", default-features = false }
# Not called from this crate. The derive crates of bevy 0.6 use syn's "full"
# feature without asking for it. darling's macro crate asks for it, and cargo
# builds one syn for all macro crates.
darling = "=0.13.4"
ron = "=0.7.1"
serde = "=1.0.229"
