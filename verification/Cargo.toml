[package]
name = "footage"
version = "0.1.0"
edition = "2021"
publish = false

[dependencies]
gtk4 = "=0.9.7"
libadwaita = "=0.7.2"
glib = "=0.20.12"
gstreamer = "=0.23.7"
gstreamer-pbutils = "=0.23.5"
gstreamer-editing-services = "=0.23.5"
gettext-rs = "=0.7.7"
ashpd = "=0.13.13"
async-channel = "=2.5.0"
fraction = "=0.17.0"
ordered-float = "=5.5.1"
num-traits = "=0.2.19"
enum-map = "=2.7.3"
itertools = "=0.14.0"
log = "=0.4.35"
once_cell = "=1.21.4"
thiserror = "=2.0.21"
url = "=2.5.8"
derivative = "=2.2.0"
