[package]
name = "frappe-gtk"
version = "0.1.0"
edition = "2021"
publish = false

[dependencies]
fragile = "1"
frappe = "0.4"
gdk = "0.13"
glib = "0.10"
gtk = "0.9"
