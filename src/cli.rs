use vstd::prelude::*;

verus! {

/// The digest algorithms that the tool offers.
#[derive(Clone, Copy, Debug, PartialEq, Eq, Structural)]
pub enum HashType {
    Md5,
    Sha256,
    Sha512,
    Blake2s,
    Blake2b,
    Blake3,
}

/// What the user asked the tool to do.
#[derive(Debug)]
pub enum Command {
    /// Print the digest of each file, one `<digest>  <file>` line per file.
    Hash { hash_type: Option<HashType>, files: Vec<String> },
    /// Check files against a checksum manifest.
    Verify { checksum_file: String, hash_type: Option<HashType>, files: Vec<String> },
}

/// The parsed command line.
#[derive(Debug)]
pub struct Args {
    pub command: Command,
}

/// The algorithm that applies when none was named: SHA-256.
pub fn effective_hash_type(hash_type: Option<HashType>) -> (r: HashType)
    ensures
        r == (match hash_type {
            Some(h) => h,
            None => HashType::Sha256,
        }),
{
    match hash_type {
        Some(h) => h,
        None => HashType::Sha256,
    }
}

} // verus!
