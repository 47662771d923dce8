[package]
name = "socket_api"
version = "0.1.0"
edition = "2021"
publish = false

[dependencies]
axerrno = "0.1.2"
axfs = "0.2.2-preview.1"
axhal = "0.2.2-preview.1"
axio = "0.1.2"
axlog = "0.2.2-preview.1"
axnet = "0.2.2-preview.1"
axsync = "0.2.2-preview.1"
crate_interface = "0.1.4"
kernel_guard = "0.1.3"
num_enum = "0.7.6"
