[package]
name = "mdpredict_russian"
version = "0.1.0"
edition = "2021"
publish = false

[dependencies]
unicode-segmentation = "*"
serde = { version = "*", features = ["derive"] }
serde_json = "*"
rsmorphy = "*"
rsmorphy-dict-ru = "*"
