[package]
name = "tinycloud_session"
version = "0.1.0"
edition = "2021"
publish = false

[dependencies]
base64 = "=0.22.1"
console_error_panic_hook = "=0.1.7"
did-method-key = "=0.5.0"
hex = "=0.4.3"
http = "=0.2.12"
iri-string = "=0.6.0"
js-sys = "=0.3.106"
k256 = { version = "=0.13.4", features = ["ecdsa"] }
serde-wasm-bindgen = "=0.6.5"
serde_json = "=1.0.154"
sha3 = "=0.10.9"
siwe = "=0.5.2"
siwe-recap = "=0.1.0"
ssi-jwk = "=0.4.0"
wasm-bindgen = "=0.2.129"
wasm-bindgen-futures = "=0.4.79"
web-sys = { version = "=0.3.106", features = ["console"] }
