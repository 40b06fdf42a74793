[package]
name = "cameraview"
version = "0.1.0"
edition = "2021"
publish = false

[dependencies]
chrono = "=0.4.45"
fragile = "=1.2.2"
gdk = "=0.12.1"
gio = "=0.8.1"
glib = "=0.9.3"
gstreamer = "=0.15.7"
gstreamer-video = "=0.15.7"
gtk = "=0.8.1"
