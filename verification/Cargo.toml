[package]
name = "ds-authority-governance-ui"
version = "0.1.0"
edition = "2021"
publish = false

[dependencies]
reqwest = { version = "*", default-features = false, features = ["json"] }
serde = { version = "1", features = ["derive"] }
web-sys = { version = "0.3", features = ["Window", "Document", "Location"] }
yew = { version = "*", features = ["csr"] }
yew-router = "*"
yewdux = "*"
patternfly-yew = "*"
console_error_panic_hook = "0.1"
edc-identity-hub-client = "*"
