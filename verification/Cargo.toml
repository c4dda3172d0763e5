[package]
name = "nice_plug_slint"
version = "0.1.0"
edition = "2021"
publish = false

[dependencies]
baseview = { version = "=0.3.7", features = ["opengl"] }
crossbeam = "=0.8.5"
i-slint-renderer-femtovg = { version = "=1.18.1", default-features = false, features = ["opengl"] }
keyboard-types = "=0.8.3"
nice-plug-core = "=0.4.2"
once_cell = "=1.21.4"
serde = { version = "=1.0.229", features = ["derive"] }
slint = { version = "=1.18.1", default-features = false, features = ["compat-1-18", "std"] }

[dev-dependencies]
serde_json = "=1.0.154"
