[package]
name = "ncaa_gateway"
version = "0.1.0"
edition = "2021"
publish = false

[dependencies]
actix-web = "*"
actix-cors = "*"
dotenv = "*"
serde_json = "*"
ssh2 = "*"
