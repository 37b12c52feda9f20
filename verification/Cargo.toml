[package]
name = "fluxplayer"
version = "0.1.0"
edition = "2021"
publish = false

[dependencies]
ringbuf = "=0.2.8"
ffmpeg = "*"
portaudio = "*"
