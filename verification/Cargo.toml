[package]
name = "circle"
version = "0.1.0"
edition = "2021"
publish = false

[dependencies]
base64 = "=0.22.1"
console_error_panic_hook = "=0.1.7"
getrandom = "=0.2.17"
gloo-net = "=0.6.0"
gloo-storage = "=0.3.0"
hex = "=0.4.3"
js-sys = "=0.3.107"
p256 = { version = "=0.13.2", features = ["ecdsa"] }
serde = { version = "=1.0.229", features = ["derive"] }
serde_json = "=1.0.154"
sha2 = "=0.10.9"
uuid = { version = "=1.29.0", features = ["v4"] }
wasm-bindgen = "=0.2.130"
wasm-bindgen-futures = "=0.4.80"
web-sys = { version = "=0.3.107", features = ["Blob", "File", "Navigator", "Notification", "PushEncryptionKeyName", "PushManager", "PushSubscription", "PushSubscriptionOptionsInit", "ServiceWorkerContainer", "ServiceWorkerRegistration", "Window"] }
worker = { version = "=0.8.7", features = ["d1"] }
