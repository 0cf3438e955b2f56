[package]
name = "paddleocr_rs_onnx"
version = "0.2.0"
edition = "2021"
publish = false

[dependencies]
image = { version = "=0.25.10", default-features = false }
log = "=0.4.35"
ort = { version = "=2.0.0-rc.15", default-features = false, features = ["load-dynamic", "directml", "cuda", "openvino", "nnapi", "coreml", "cann"] }
parking_lot = "=0.12.5"
rayon = "=1.12.0"
serde = { version = "=1.0.229", features = ["derive"] }
thiserror = "=2.0.21"
