[package]
name = "media_graph"
version = "0.1.0"
edition = "2021"
publish = false

[dependencies]
async-graphql = { version = "7", default-features = false }
sea-orm = { version = "1", default-features = false, features = ["macros"] }
