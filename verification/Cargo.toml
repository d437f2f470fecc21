[package]
name = "telemetry_agent"
version = "0.1.0"
edition = "2021"
publish = false

[dependencies]
clap = { version = "*", features = ["derive"] }
tokio = { version = "*", features = ["macros", "rt-multi-thread", "time"] }
tonic = "*"
prost = "*"
log = "*"
simple_logger = "*"
sysinfo = "*"
systemstat = "*"
whoami = "*"
reqwest = { version = "*", default-features = false }
cpuinfo = "*"
heim-virt = "*"
