[package]
name = "hydrolysis_m3"
version = "0.3.1"
edition = "2021"
publish = false

[dependencies]
material-color-utils = "=0.1.3"
num-traits = "=0.2.19"
waterui-backend-core = { version = "=0.5.2", default-features = false }
waterui-controls = { version = "=0.5.1", default-features = false }
waterui-core = { version = "=0.5.1", default-features = false }
waterui-form = { version = "=0.5.1", default-features = false }
waterui-graphics = { version = "=0.5.1", default-features = false }
