[package]
name = "e2e_test_utils"
version = "0.1.0"
edition = "2021"
publish = false

[dependencies]
alloy-consensus = { version = "=2.5.0", features = ["k256"] }
alloy-eips = "=2.5.0"
alloy-primitives = { version = "=1.7.3", features = ["rand"] }
alloy-signer = "=2.5.0"
alloy-signer-local = { version = "=2.5.0", features = ["mnemonic"] }
futures-util = "=0.3.34"
tokio = { version = "=1.53.2", features = ["macros", "rt", "sync", "time"] }
