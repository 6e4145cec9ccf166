[package]
name = "libdaisy"
version = "0.1.0"
edition = "2021"
publish = false

[dependencies]
cfg-if = "1"
cortex-m = "0.7"
cortex-m-rtic = "1.1"
debouncr = "0.2"
log = "0.4"
micromath = "2"
panic-halt = "0.2"
stm32-fmc = "0.3"
stm32h7xx-hal = { version = "0.16", features = ["stm32h750v", "rt", "fmc", "xspi", "sdmmc"] }
