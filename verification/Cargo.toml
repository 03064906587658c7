[package]
name = "media_stream"
version = "0.1.0"
edition = "2021"
publish = false

[dependencies]
leptos = { version = "=0.7.8", features = ["csr"] }
leptos-use = { version = "=0.15.10" }
serde = { version = "=1.0.229", features = ["derive"] }
web-sys = { version = "=0.3.106", features = ["DomRect", "Document", "Element", "Event", "EventTarget", "HtmlDivElement", "HtmlInputElement", "HtmlMediaElement", "HtmlVideoElement", "KeyboardEvent", "MediaSource", "MouseEvent", "ProgressEvent", "SourceBuffer", "TimeRanges", "Url"] }
