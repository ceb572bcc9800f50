[package]
name = "liturgical_calendar"
version = "0.1.0"
edition = "2021"
publish = false

[dependencies]
chrono = "*"
