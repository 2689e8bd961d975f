[package]
name = "termclock"
version = "0.1.0"
edition = "2021"
publish = false

[dependencies]
cfonts = "1"
chrono = "0.4"
chrono-tz = "*"
clap = { version = "4", features = ["derive"] }
termion = "*"
termios = "0.3"
