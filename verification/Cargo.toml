[package]
name = "qingjian_linux"
version = "0.1.4"
edition = "2021"
publish = false

[dependencies]
librush = "=0.2.3"
xkeysym = "=0.2.1"
zbus = "=5.19.0"
tokio = { version = "=1.54.1", features = ["rt-multi-thread", "time", "macros"] }
tracing = "=0.1.44"
tracing-subscriber = { version = "=0.3.23", features = ["env-filter"] }
thiserror = "=2.0.21"
# Not used directly: librush builds with pm-bin, whose build script uses vergen; the
# later 10.0 releases need a newer rustc than the toolchain here, so the line is held.
vergen = "=10.0.1"
vergen-lib = "=10.0.1"
vergen-gitcl = "=10.0.1"
