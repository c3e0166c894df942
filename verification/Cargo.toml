[package]
name = "leap_core"
version = "0.1.0"
edition = "2021"
publish = false

[dependencies]
base64 = "=0.23.1"
dirs = "=7.0.0"
image = "=0.25.10"
imagequant = { version = "=4.4.1", default-features = false }
mozjpeg = "=0.10.13"
num_cpus = "=1.17.0"
png = "=0.18.1"
printpdf = "=0.12.8"
rgb = "=0.8.53"
serde = { version = "=1.0.229", features = ["derive"] }
sha2 = "=0.11.0"
winapi = { version = "=0.3.9", features = ["shellapi", "winuser", "wingdi"] }
zip = "=8.6.0"
