[package]
name = "genesis_gen"
version = "0.1.0"
edition = "2021"
publish = false

[dependencies]
anyhow = "=1.0.104"
ethabi = "16"
ethereum-types = "=0.12.1"
evm = "=0.33.1"
hex = "=0.4.3"
once_cell = "=1.21.4"
ovr-evm-precompile-blake2 = "=2.0.0"
ovr-evm-precompile-bn128 = "=2.0.0"
ovr-evm-precompile-curve25519 = "=1.0.1"
ovr-evm-precompile-ed25519 = "=2.0.0"
ovr-evm-precompile-modexp = "=2.0.0"
ovr-evm-precompile-sha3fips = "=2.0.0"
ovr-evm-precompile-simple = "=2.0.0"
ovr-fp-evm = "=3.0.0"
serde = { version = "=1.0.229", features = ["derive"] }
serde_json = "=1.0.154"
