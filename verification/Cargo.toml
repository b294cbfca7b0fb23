[package]
name = "worker_rpc"
version = "0.1.0"
edition = "2021"
publish = false

[dependencies]
wasm-bindgen = "*"
js-sys = "*"
web-sys = { version = "*", features = ["Worker", "WorkerOptions", "WorkerType", "MessageEvent", "DedicatedWorkerGlobalScope", "EventTarget", "Event"] }
gloo-events = "*"
futures-channel = "*"
futures-core = "*"
futures-util = "*"
