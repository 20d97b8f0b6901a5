//! Fixed-size matrices and vectors over generic scalars, together with a
//! small set of byte-level utilities: the Adler-32 checksum, a Base64
//! encoder and the MD5 digest.

pub mod adler32;
pub mod basex;
pub mod hex;
pub mod matrix;
pub mod md5;
