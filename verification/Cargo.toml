[package]
name = "steel_plate"
version = "0.1.0"
edition = "2021"
publish = false

[dependencies]
gtmpl = "=0.7.1"
minify-html = "=0.18.1"
tokio = { version = "=1.53.2", features = ["full"] }
hyper = { version = "=0.14.32", features = ["full"] }
lambda_runtime = "=0.6.1"
aws-config = "=1.12.0"
aws-sdk-dynamodb = "=1.130.0"
lazy_static = "=1.5.1"
async_once = "=0.2.6"
rust-embed = "=8.12.0"
hegel = "=0.1.1"
