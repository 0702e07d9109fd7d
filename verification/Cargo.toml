[package]
name = "yew_to_do_app"
version = "0.1.0"
edition = "2021"
publish = false

[dependencies]
serde = { version = "1", features = ["derive"] }
web-sys = { version = "0.3", features = ["HtmlInputElement", "InputEvent", "KeyboardEvent"] }
yew = { version = "0.21", features = ["csr"] }
