[package]
name = "cdrip"
version = "0.1.0"
edition = "2021"
publish = false

[dependencies]
gstreamer = "*"
gstreamer-pbutils = "*"
glib = "*"
discid = "*"
musicbrainz_rs = "*"
ctrlc = "*"
