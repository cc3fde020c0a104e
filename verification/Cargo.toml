[package]
name = "disclosure_proofs"
version = "0.1.0"
edition = "2021"
publish = false

[dependencies]
base64 = "0.22"
jni = "=0.13.1"
protobuf = "=2.28.0"
