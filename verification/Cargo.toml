[package]
name = "web_sw_cor24_ocaml"
version = "0.1.0"
edition = "2021"
publish = false

[dependencies]
yew = { version = "*", features = ["csr"] }
gloo = { version = "*", default-features = false, features = ["timers"] }
js-sys = "*"
wasm-bindgen = "*"
web-sys = { version = "*", features = ["Element", "HtmlInputElement", "HtmlSelectElement", "HtmlTextAreaElement", "KeyboardEvent", "MouseEvent", "InputEvent", "Event", "EventTarget"] }
