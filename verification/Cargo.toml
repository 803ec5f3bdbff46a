[package]
name = "gtksnake"
version = "0.1.0"
edition = "2021"
publish = false

[dependencies]
rand = "0.8"
gtk = "0.9"
gdk = "0.13"
gio = "0.9"
glib = "0.10"
