[package]
name = "squads_mpl"
version = "0.1.0"
edition = "2021"
publish = false

[dependencies]
anchor-lang = "*"
solana-address-lookup-table-program = "*"
