[package]
name = "os_terminal"
version = "0.1.0"
edition = "2021"
publish = false

[dependencies]
ab_glyph = "=0.2.32"
base64ct = { version = "=1.8.3", features = ["alloc"] }
lru = "=0.19.0"
noto-sans-mono-bitmap = { version = "=0.3.2", default-features = false, features = ["bold", "regular", "size_20", "unicode_ranges_all"] }
pc-keyboard = "=0.8.0"
unicode-width = "=0.2.2"
vte = { version = "=0.15.0", features = ["ansi"] }
