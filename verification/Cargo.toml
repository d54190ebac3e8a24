[package]
name = "gw_bin"
version = "0.1.0"
edition = "2021"
publish = false

[dependencies]
git2 = { version = "=0.21.0", default-features = false, features = ["cred", "vendored-libgit2"] }
duct = "=0.13.7"
duct_sh = "=0.13.7"
shlex = "=2.0.1"
nix = { version = "=0.31.3", features = ["signal"] }
tiny_http = "=0.12.0"
duration-string = "=0.5.3"
signal-hook = "=0.4.5"
dirs = "=7.0.0"

[dev-dependencies]
ureq = { version = "=3.4.2", default-features = false }
