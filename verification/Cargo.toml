[package]
name = "definition_provider"
version = "0.1.0"
edition = "2021"
publish = false

[dependencies]
cooplan-amqp-api = "=0.12.1"
cooplan-amqp-api-shared = "=0.1.2"
cooplan-definition-git-downloader = "=0.1.2"
cooplan-definitions-io-lib = "=0.1.7"
cooplan-definitions-lib = "=0.1.6"
cooplan-lapin-wrapper = "=0.5.0"
cooplan-state-tracker = "=0.2.0"
async-channel = "=1.9.0"
tokio = { version = "=1.54.1", features = ["full"] }
serde = { version = "=1.0.229", features = ["derive"] }
serde_json = "=1.0.154"
log = "=0.4.35"
simple_logger = "=5.2.0"
