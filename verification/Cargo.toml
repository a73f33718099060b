[package]
name = "presence_sync"
version = "0.1.0"
edition = "2021"
publish = false

[dependencies]
discord-rich-presence = "=1.1.0"
mpris = "=2.1.0"
pickledb = "=0.5.1"
url-escape = "=0.1.2"
serde_json = "=1.0.154"
ureq = "2"
