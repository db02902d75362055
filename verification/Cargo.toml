[package]
name = "tealr_doc_gen"
version = "0.1.0"
edition = "2021"
publish = false

[dependencies]
anyhow = "=1.0.104"
clap = "=3.2.25"
minify-html = "=0.18.1"
pulldown-cmark = { version = "=0.12.2", default-features = false, features = ["html"] }
sanitize-filename = "=0.6.0"
serde = { version = "=1.0.229", features = ["derive"] }
serde_json = "=1.0.154"
tealr = { version = "=0.11.0", default-features = false, features = ["derive", "self_to_lua", "mlua_lua54", "mlua_vendored"] }
zip = { version = "=9.1.0", default-features = false, features = ["deflate"] }
