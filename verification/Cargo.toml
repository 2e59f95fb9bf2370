[package]
name = "text_embedding"
version = "0.1.0"
edition = "2021"
publish = false

[dependencies]
anyhow = "=1.0.104"
candle-core = "=0.6.0"
candle-nn = "=0.6.0"
candle-transformers = "=0.6.0"
ext-php-rs = "=0.12.0"
half = "=2.4.1"
hf-hub = "=0.3.2"
serde_json = "=1.0.154"
tokenizers = "=0.19.1"
