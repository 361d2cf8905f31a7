[package]
name = "flightmap"
version = "0.1.0"
edition = "2021"
publish = false

[dependencies]
chrono = "*"
serde = { version = "*", features = ["derive"] }
serde_json = "*"
geoutils = "*"
futures = "*"
wasm-bindgen = "*"
js-sys = "*"
wasm-bindgen-futures = "*"
callback-future = "*"
web-sys = { version = "*", features = ["Window", "Document", "Element", "HtmlCanvasElement", "CanvasRenderingContext2d", "TextMetrics", "DomRect", "Request", "RequestInit", "RequestMode", "Response", "Headers", "console"] }

[dev-dependencies]
