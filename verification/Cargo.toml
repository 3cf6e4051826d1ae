[package]
name = "ezlangsharp"
version = "0.1.0"
edition = "2021"
publish = false

[dependencies]
codespan-reporting = "=0.11.1"
clap = { version = "=4.6.7", features = ["derive"] }
lalrpop-util = { version = "=0.20.2", features = ["lexer"] }
