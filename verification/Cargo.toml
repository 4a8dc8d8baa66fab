[package]
name = "spatial_bridge"
version = "0.1.0"
edition = "2021"
publish = false

[dependencies]
geo-types = "*"
gdal-sys = "*"
geos = "*"
libc = "*"
