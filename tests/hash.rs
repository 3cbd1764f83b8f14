use wolfcrypt_guard::algorithm::HashAlgorithm;
use wolfcrypt_guard::hash::{HashPhase, HashSession};
use wolfcrypt_guard::status::BUFFER_E;

const ALL: [HashAlgorithm; 9] = [
    HashAlgorithm::Sha1,
    HashAlgorithm::Sha224,
    HashAlgorithm::Sha256,
    HashAlgorithm::Sha384,
    HashAlgorithm::Sha512,
    HashAlgorithm::Sha3_224,
    HashAlgorithm::Sha3_256,
    HashAlgorithm::Sha3_384,
    HashAlgorithm::Sha3_512,
];

#[test]
fn digest_sizes() {
    let expected = [20usize, 28, 32, 48, 64, 28, 32, 48, 64];
    for (alg, size) in ALL.iter().zip(expected.iter()) {
        assert_eq!(alg.digest_size(), *size);
    }
}

#[test]
fn start_passes_native_failure_back() {
    assert!(matches!(HashSession::start(HashAlgorithm::Sha256, -173), Err(-173)));
}

#[test]
fn start_then_finalize_without_update() {
    for alg in ALL {
        let mut s = HashSession::start(alg, 0).unwrap();
        assert_eq!(s.algorithm(), alg);
        assert_eq!(s.phase(), HashPhase::Initialized);
        let hash = vec![0u8; alg.digest_size()];
        assert_eq!(s.prepare_finalize(&hash), Ok(()));
        assert_eq!(s.complete_finalize(0), Ok(()));
        assert_eq!(s.phase(), HashPhase::Finalized);
    }
}

#[test]
fn finalize_wrong_length_is_length_mismatch() {
    for alg in ALL {
        let s = HashSession::start(alg, 0).unwrap();
        let size = alg.digest_size();
        for len in [0, 1, size - 1, size + 1, 2 * size] {
            let hash = vec![0xa5u8; len];
            assert_eq!(s.prepare_finalize(&hash), Err(BUFFER_E));
            assert!(hash.iter().all(|b| *b == 0xa5));
        }
    }
}

#[test]
fn split_updates_reach_same_phase_as_one() {
    let data = b"abcdefgh";
    let mut one = HashSession::start(HashAlgorithm::Sha512, 0).unwrap();
    assert_eq!(one.prepare_update(data), Ok(8));
    assert_eq!(one.complete_update(data, 0), Ok(()));
    let mut two = HashSession::start(HashAlgorithm::Sha512, 0).unwrap();
    assert_eq!(two.prepare_update(&data[..3]), Ok(3));
    assert_eq!(two.complete_update(&data[..3], 0), Ok(()));
    assert_eq!(two.prepare_update(&data[3..]), Ok(5));
    assert_eq!(two.complete_update(&data[3..], 0), Ok(()));
    assert_eq!(one.phase(), HashPhase::Updated);
    assert_eq!(two.phase(), HashPhase::Updated);
}

#[test]
fn empty_update_is_accepted() {
    let mut s = HashSession::start(HashAlgorithm::Sha1, 0).unwrap();
    assert_eq!(s.prepare_update(&[]), Ok(0));
    assert_eq!(s.complete_update(&[], 0), Ok(()));
    assert_eq!(s.phase(), HashPhase::Updated);
}

#[test]
fn failed_update_keeps_phase() {
    let mut s = HashSession::start(HashAlgorithm::Sha224, 0).unwrap();
    assert_eq!(s.complete_update(b"x", -173), Err(-173));
    assert_eq!(s.phase(), HashPhase::Initialized);
}

#[test]
fn failed_finalize_keeps_phase() {
    let mut s = HashSession::start(HashAlgorithm::Sha384, 0).unwrap();
    assert_eq!(s.complete_update(b"x", 0), Ok(()));
    assert_eq!(s.complete_finalize(-173), Err(-173));
    assert_eq!(s.phase(), HashPhase::Updated);
}

#[test]
fn restart_after_finalize() {
    let mut s = HashSession::start(HashAlgorithm::Sha3_256, 0).unwrap();
    assert_eq!(s.complete_update(b"input", 0), Ok(()));
    assert_eq!(s.complete_finalize(0), Ok(()));
    assert_eq!(s.restart(0), Ok(()));
    assert_eq!(s.phase(), HashPhase::Initialized);
    assert_eq!(s.restart(-1), Err(-1));
    assert_eq!(s.phase(), HashPhase::Initialized);
}
