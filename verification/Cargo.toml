[package]
name = "sbom_convert"
version = "0.1.0"
edition = "2021"
publish = false

[dependencies]
cyclonedx-bom = "*"
spdx-rs = "*"

[dev-dependencies]
serde_json = "*"
