[package]
name = "vault_sync"
version = "0.1.0"
edition = "2021"
publish = false

[dependencies]
clap = "=2.34.0"
ctrlc = "=3.5.2"
hashicorp_vault = "=2.1.1"
log = "=0.4.34"
serde_json = "=1.0.154"
serde_yaml = "0.8"
simplelog = "=0.8.0"
