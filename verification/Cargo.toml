[package]
name = "android_keystore"
version = "0.1.0"
edition = "2021"
publish = false

[dependencies]
jni = "0.21"
base64 = "0.22"
ndk-context = "0.1"
