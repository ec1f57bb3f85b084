use hashr::cli::{effective_hash_type, HashType};
use hashr::digest::{compute_hash, hash_line, str_eq_ignore_ascii_case, verify_file};

const ALL: [HashType; 6] = [
    HashType::Md5,
    HashType::Sha256,
    HashType::Sha512,
    HashType::Blake2s,
    HashType::Blake2b,
    HashType::Blake3,
];

#[test]
fn empty_input_digests() {
    let cases = [
        (HashType::Md5, "d41d8cd98f00b204e9800998ecf8427e"),
        (HashType::Sha256, "e3b0c44298fc1c149afbf4c8996fb92427ae41e4649b934ca495991b7852b855"),
        (
            HashType::Sha512,
            "cf83e1357eefb8bdf1542850d66d8007d620e4050b5715dc83f4a921d36ce9ce47d0d13c5d85f2b0ff8318d2877eec2f63b931bd47417a81a538327af927da3e",
        ),
        (HashType::Blake2s, "69217a3079908094e11121d042354a7c1f55b6482ca1a51e1b250dfd1ed0eef9"),
        (
            HashType::Blake2b,
            "786a02f742015903c6c6fd852552d272912f4740e15847618a86e217f71f5419d25e1031afee585313896444934eb04b903a685b1448b755d56f701afe9be2ce",
        ),
        (HashType::Blake3, "af1349b9f5f9a1a6a0404dea36dcc9499bcb25c9adc112b7cc9a93cae41f3262"),
    ];
    for (alg, expected) in cases {
        assert_eq!(compute_hash(b"", &alg), expected);
    }
}

#[test]
fn abc_digests() {
    assert_eq!(compute_hash(b"abc", &HashType::Md5), "900150983cd24fb0d6963f7d28e17f72");
    assert_eq!(
        compute_hash(b"abc", &HashType::Sha256),
        "ba7816bf8f01cfea414140de5dae2223b00361a396177a9cb410ff61f20015ad"
    );
}

#[test]
fn digest_lengths_and_case() {
    let lens = [32, 64, 128, 64, 128, 64];
    for (alg, len) in ALL.iter().zip(lens) {
        let d = compute_hash(b"some bytes", alg);
        assert_eq!(d.len(), len);
        assert!(d.chars().all(|c| c.is_ascii_digit() || ('a'..='f').contains(&c)));
    }
}

#[test]
fn digest_is_deterministic() {
    let data = b"the same bytes twice".to_vec();
    let copy = data.clone();
    for alg in ALL.iter() {
        assert_eq!(compute_hash(&data, alg), compute_hash(&copy, alg));
    }
}

#[test]
fn algorithms_differ() {
    assert_ne!(compute_hash(b"x", &HashType::Sha256), compute_hash(b"x", &HashType::Blake2s));
    assert_ne!(compute_hash(b"x", &HashType::Sha256), compute_hash(b"y", &HashType::Sha256));
}

#[test]
fn default_algorithm_is_sha256() {
    assert_eq!(effective_hash_type(None), HashType::Sha256);
    assert_eq!(effective_hash_type(Some(HashType::Md5)), HashType::Md5);
}

#[test]
fn ignore_case_comparison() {
    assert!(str_eq_ignore_ascii_case("abcDEF09", "ABCdef09"));
    assert!(str_eq_ignore_ascii_case("", ""));
    assert!(!str_eq_ignore_ascii_case("abc", "abd"));
    assert!(!str_eq_ignore_ascii_case("abc", "abcd"));
    assert!(!str_eq_ignore_ascii_case("a@", "A`"));
}

#[test]
fn verify_file_accepts_uppercase() {
    let upper = "D41D8CD98F00B204E9800998ECF8427E";
    assert!(verify_file(b"", upper, &HashType::Md5));
    assert!(!verify_file(b"x", upper, &HashType::Md5));
}

#[test]
fn hash_line_format() {
    assert_eq!(hash_line("abc123", "dir/file.txt"), "abc123  dir/file.txt");
}
