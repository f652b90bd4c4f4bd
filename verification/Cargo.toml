[package]
name = "thirtyfour_testing_library_ext"
version = "0.1.0"
edition = "2021"
publish = false

[dependencies]
regex = "*"
serde_json = "*"
thirtyfour = "*"
