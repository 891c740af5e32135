[package]
name = "neotron_bmc"
version = "0.1.0"
edition = "2021"
publish = false

[dependencies]
cortex-m = "=0.7.10"
cortex-m-rtic = "=1.1.4"
debouncr = "=0.2.2"
defmt = "=0.3.101"
heapless = "=0.7.17"
neotron-bmc-commands = "=0.2.0"
neotron-bmc-protocol = "=0.1.0"
stm32f0xx-hal = { version = "=0.18.0", features = ["stm32f030x6", "rt"] }
systick-monotonic = "=1.0.1"
