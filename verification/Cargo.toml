[package]
name = "chezmoi_modify_manager"
version = "0.1.0"
edition = "2021"
publish = false

[dependencies]
anstream = "=1.0.0"
anstyle = "=1.0.14"
anyhow = "=1.0.104"
bpaf = { version = "=0.9.28", features = ["autocomplete", "derive"] }
camino = "=1.2.6"
duct = "=1.1.2"
env_logger = "=0.11.11"
glob = "=0.3.4"
ini-merge = { version = "=0.7.0", default-features = false }
log = "=0.4.34"
medic = "=0.3.6"
regex = "=1.13.1"
thiserror = "=2.0.21"
which = "=8.0.6"
