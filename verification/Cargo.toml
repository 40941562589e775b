[package]
name = "nag52"
version = "0.1.0"
edition = "2021"
publish = false

[dependencies]
crc32fast = "=1.5.4"
automotive_diag = "=0.1.29"
convert_case = "=0.12.0"
chrono = "=0.4.45"
clap = { version = "=4.6.7", features = ["derive"] }
clap-num = "=1.2.0"
object = "=0.40.0"
elf = "=0.8.0"
console = "=0.16.6"
indicatif = "=0.18.6"
color-eyre = "=0.6.5"
ecu_diagnostics = "=0.107.5"
serialport = "=4.10.1"
log = "=0.4.35"
env_logger = "=0.11.11"
defmt-decoder = "=1.2.0"
defmt-parser = "=1.1.0"
postcard = { version = "=1.1.3", features = ["alloc"] }
lz4_flex = "=0.14.0"
bitbybit = "*"
arbitrary-int = "*"
konst = "*"
libm = "*"
