[package]
name = "display_list"
version = "0.1.0"
edition = "2021"
publish = false

[dependencies]
app_units = "=0.7.8"
cssparser = "0.29"
euclid = "0.20"
fnv = "=1.0.7"
mime = "=0.3.17"
mitochondria = "=1.1.2"
webrender_api = "=0.61.0"
