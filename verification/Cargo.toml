[package]
name = "async-fetcher"
version = "0.3.0"
edition = "2021"
publish = false

[dependencies]
async-std = "=1.13.2"
chrono = "=0.4.45"
filetime = "=0.2.29"
futures-preview = "=0.3.0-alpha.19"
http = "=0.1.21"
http-client = "=1.1.1"
log = "=0.4.34"
numtoa = "=0.2.4"
surf = "=1.0.3"
thiserror = "=1.0.69"
