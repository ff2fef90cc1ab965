[package]
name = "datalogger"
version = "0.1.0"
edition = "2021"
publish = false

[dependencies]
arrayvec = "=0.7.8"
embedded-sdmmc = "=0.3.0"
embedded-hal = "=0.2.7"
pcf8563 = "=0.1.2"
bmp280-rs = "=0.1.2"
dht11 = "=0.3.1"
hx1230 = "=0.3.2"
embedded-graphics = "=0.7.1"
stm32f4xx-hal = { version = "=0.20.0", features = ["stm32f411"] }
cortex-m = "=0.7.10"
cortex-m-rt = "=0.7.7"
