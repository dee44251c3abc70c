[package]
name = "mp3_player"
version = "0.1.0"
edition = "2021"
publish = false

[dependencies]
crossbeam = "0.3"
gdk-pixbuf = "0.3"
gio = "0.3"
gtk = "0.3"
gtk-sys = "0.5"
id3 = "0.2"
pulse-simple = "1"
simplemad = "0.8"
