[package]
name = "bt_yaml_utils"
version = "0.1.0"
edition = "2021"
publish = false

[dependencies]
yaml-rust2 = "*"
bt_file_utils = "*"
bt_logger = "*"
