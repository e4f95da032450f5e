[package]
name = "mollusk_helper"
version = "0.1.0"
edition = "2021"
rust-version = "1.95"
publish = false

[dependencies]
bincode = "1"
mollusk-svm = "=0.15.1"
mollusk-svm-programs-memo = "=0.15.1"
mollusk-svm-programs-token = "=0.15.1"
solana-account = "4"
solana-hash = "4"
solana-instruction = "3"
solana-keypair = "3"
solana-message = { version = "4", features = ["serde"] }
solana-program-error = "3"
solana-program-option = "3"
solana-program-pack = "3"
solana-pubkey = "4"
solana-signer = "3"
solana-system-interface = "3"
spl-associated-token-account-interface = "2"
spl-token-interface = "2"
# The crates below are not named in the source; they pin the engine's own
# dependencies to the release line that this toolchain can build.
solana-bpf-loader-program = "~4.2"
solana-compute-budget = "~4.2"
solana-program-runtime = "~4.2"
solana-svm-callback = "~4.2"
solana-svm-feature-set = "~4.2"
solana-svm-log-collector = "~4.2"
solana-svm-timings = "~4.2"
solana-syscalls = "~4.2"
solana-system-program = "~4.2"
solana-transaction-context = "~4.2"
