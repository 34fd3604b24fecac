[package]
name = "qubit_batch"
version = "0.11.0"
edition = "2021"
publish = false

[dependencies]
qubit-function = "*"
qubit-progress = "*"
qubit-atomic = "*"
crossbeam-queue = "0.3"
thiserror = "2"
