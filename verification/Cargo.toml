[package]
name = "sso_connect"
version = "0.1.0"
edition = "2021"
publish = false

[dependencies]
aws-config = "=1.13.0"
aws-sdk-ssm = "=1.131.0"
aws-sdk-sso = "=1.117.0"
aws-sdk-ssooidc = "=1.119.0"
aws-types = "=1.7.0"
clap = { version = "=4.6.7", features = ["derive"] }
dirs-next = "=2.0.0"
inquire = "=0.9.4"
serde_json = "=1.0.154"
shellexpand = "=3.1.2"
skim = { version = "0.10", default-features = false }
tokio = { version = "=1.54.1", features = ["rt-multi-thread", "macros", "time"] }
webbrowser = "=1.2.5"
