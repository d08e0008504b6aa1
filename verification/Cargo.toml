[package]
name = "object_store_aws"
version = "0.1.0"
edition = "2021"
publish = false

[dependencies]
aws-config = { version = "1", default-features = false, features = ["rt-tokio", "behavior-version-latest"] }
aws-credential-types = "1"
aws-smithy-runtime-api = { version = "1", features = ["client", "http-1x"] }
aws-smithy-types = { version = "1", features = ["http-body-1-x"] }
aws-smithy-http-client = { version = "1", features = ["rustls-ring"] }
object_store = { version = "0.12", default-features = false, features = ["aws"] }
tokio = { version = "1", features = ["sync", "rt", "macros"] }
http-body-util = "0.1"
