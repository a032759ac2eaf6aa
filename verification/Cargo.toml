[package]
name = "sd_formatter"
version = "0.1.0"
edition = "2021"
publish = false

[dependencies]
utf16string = "*"
winapi = { version = "0.3", features = ["setupapi", "handleapi", "winioctl", "devpkey", "devpropdef", "guiddef", "minwindef", "ntdef", "winerror"] }
