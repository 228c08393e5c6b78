[package]
name = "bandersnatch_ring_vrf"
version = "0.1.0"
edition = "2021"
publish = false

[dependencies]
ark-vrf = { version = "=0.4.0", features = ["bandersnatch", "ring"] }
libc = "=0.2.190"
