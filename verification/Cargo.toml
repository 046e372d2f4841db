[package]
name = "chess_perft"
version = "0.1.0"
edition = "2021"
publish = false

[dependencies]
chess = "3.2"
chessie = "2"
cozy-chess = "0.3"
shakmaty = "0.27"
getopts = "0.2"
serde = { version = "1", features = ["derive"] }
serde_json = "1"
