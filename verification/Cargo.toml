[package]
name = "eui_board"
version = "0.1.0"
edition = "2021"
publish = false

[dependencies]
electricui-embedded = "=0.1.5"
bbqueue = "=0.5.1"
byteorder = { version = "=1.5.0", default-features = false }
embedded-dma = "=0.2.0"
log = "=0.4.35"
stm32f4xx-hal = { version = "=0.14.0", features = ["stm32f411", "rt", "rtic"] }
cortex-m-rtic = "=1.1.4"
rtt-target = "=0.3.1"
rtt-logger = "=0.2.1"
panic-rtt-target = "=0.2.0"
