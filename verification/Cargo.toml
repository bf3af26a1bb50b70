[package]
name = "timesheet"
version = "0.1.0"
edition = "2021"
publish = false

[dependencies]
objc2-app-kit = "0.3"
