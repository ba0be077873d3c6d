[package]
name = "ingest_relay"
version = "0.1.0"
edition = "2021"
publish = false

[dependencies]
aws-config = "=1.12.0"
aws-sdk-s3 = "=1.152.0"
aws-sdk-textract = "=1.114.0"
# Not used directly. aws-config 1.12.0 does not compile against aws-types 1.7,
# which the resolver would otherwise pick.
aws-types = "=1.6.0"
aws_lambda_events = { version = "=1.2.1", default-features = false, features = ["s3"] }
lambda_runtime = "=1.5.0"
tokio = { version = "=1.54.1", features = ["macros", "rt-multi-thread", "io-util"] }
tracing-subscriber = "=0.3.23"
