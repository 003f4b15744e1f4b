[package]
name = "jh71xx_hal"
version = "0.1.0"
edition = "2021"
publish = false

[dependencies]
embedded-hal = "1"
jh71xx-pac = "*"
riscv = "*"

[lints.rust]
unexpected_cfgs = { level = "warn", check-cfg = [
  'cfg(verus_only)',
] }
