[package]
name = "viet_input"
version = "0.1.0"
edition = "2021"
publish = false

[dependencies]
gtk = "0.1.3"
gdk = "0.5.3"
