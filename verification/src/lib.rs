//! A benchmark of AES-128 encryption: one short message is encrypted over and
//! over, in CBC mode with padding and in GCM mode, with a cipher made for every
//! message or with one made once, and each run reports the time it took and
//! the sum of the ciphertext lengths.
//!
//! The ciphers are those of the `aes`, `cbc` and `aes-gcm` crates, bound in
//! `cipher`; the clock is std's, bound in `clock`. What is proved is what
//! surrounds them: which inputs a run takes, what it sums up to, and what its
//! report reads.
pub mod cipher;
pub mod clock;
pub mod decode;
pub mod encrypt;
pub mod error;
pub mod report;
pub mod runner;
pub mod sizes;
pub mod suite;
