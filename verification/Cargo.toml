[package]
name = "legacy_device_manager"
version = "0.1.0"
edition = "2021"
publish = false

[dependencies]
dbs-device = "=0.2.0"
dbs-legacy-devices = "=0.1.1"
kvm-ioctls = "=0.12.1"
libc = "=0.2.190"
vm-superio = "=0.5.0"
vmm-sys-util = "=0.11.2"
