[package]
name = "graphql_ipld"
version = "0.1.0"
edition = "2021"
publish = false

[dependencies]
forest_cid = "=0.3.0"
forest_db = "=0.1.0"
forest_ipld = "=0.1.1"
hex = "=0.4.3"
ipld_blockstore = "=0.1.1"
juniper = "=0.17.1"
juniper_rocket = "=0.10.0"
rocket = "=0.5.2"
