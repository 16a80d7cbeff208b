[package]
name = "p25rx"
version = "0.1.0"
edition = "2021"
publish = false

[dependencies]
anyhow = "1"
arrayvec = "0.5"
clap = { version = "4", features = ["derive"] }
crossbeam = "0.3"
demod_fm = "*"
env_logger = "0.10"
log = "0.4"
mio = "0.6"
mio-extras = "2"
mio-more = "0.1"
moving_avg = "*"
prctl = "*"
rtlsdr_iq = "*"
rtlsdr_mt = "*"
serde = { version = "1", features = ["derive"] }
serde_json = "1"
static_fir = "*"
uhttp_chunked_write = "*"
uhttp_json_api = "*"
uhttp_method = "*"
uhttp_response_header = "*"
uhttp_sse = "*"
uhttp_status = "*"
uhttp_uri = "*"
uhttp_version = "*"
