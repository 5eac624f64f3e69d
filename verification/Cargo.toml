[package]
name = "weathercr"
version = "0.1.0"
edition = "2021"
publish = false

[dependencies]
serde_json = "=1.0.151"
teloxide = { version = "=0.12.2", features = ["macros", "ctrlc_handler"] }
reqwest = { version = "=0.11.27", features = ["json"] }
tokio = { version = "=1.53.2", features = ["rt-multi-thread", "macros"] }
dotenv = "=0.15.0"
log = "=0.4.34"
pretty_env_logger = "=0.5.0"
dptree = "=0.3.0"
# Not named by any source file: the chat framework pulls takecell in, and its
# newest release asks for a newer rustc than this toolchain has, so the
# version is held down here.
takecell = "=0.1.1"
