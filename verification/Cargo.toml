[package]
name = "tokio_postgres_dsql"
version = "0.1.0"
edition = "2021"
publish = false

[dependencies]
aws-config = "*"
aws-sdk-dsql = "*"
openssl = "*"
openssl-probe = "*"
postgres-openssl = "*"
thiserror = "*"
tokio = { version = "*", features = ["rt"] }
tokio-postgres = "*"
