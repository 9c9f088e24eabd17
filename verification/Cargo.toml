[package]
name = "winmmf"
version = "0.1.0"
edition = "2021"
publish = false

[dependencies]
fixedstr = "*"
microseh = "*"
windows = { version = "*", features = ["Win32_Foundation", "Win32_System_Memory"] }
windows-ext = "*"
