use wolfcrypt_guard::algorithm::XofAlgorithm;
use wolfcrypt_guard::status::BUFFER_E;
use wolfcrypt_guard::xof::{XofPhase, XofSession};

#[test]
fn block_sizes() {
    assert_eq!(XofAlgorithm::Shake128.block_size(), 168);
    assert_eq!(XofAlgorithm::Shake256.block_size(), 136);
}

#[test]
fn squeeze_whole_blocks() {
    for alg in [XofAlgorithm::Shake128, XofAlgorithm::Shake256] {
        let s = XofSession::start(alg, 0).unwrap();
        let bs = alg.block_size();
        assert_eq!(s.prepare_squeeze(&vec![0u8; 0]), Ok(0));
        assert_eq!(s.prepare_squeeze(&vec![0u8; bs]), Ok(1));
        assert_eq!(s.prepare_squeeze(&vec![0u8; 2 * bs]), Ok(2));
        assert_eq!(s.prepare_squeeze(&vec![0u8; 7 * bs]), Ok(7));
    }
}

#[test]
fn squeeze_partial_block_is_length_mismatch() {
    for alg in [XofAlgorithm::Shake128, XofAlgorithm::Shake256] {
        let s = XofSession::start(alg, 0).unwrap();
        let bs = alg.block_size();
        for len in [1, bs - 1, bs + 1, 2 * bs - 1] {
            assert_eq!(s.prepare_squeeze(&vec![0u8; len]), Err(BUFFER_E));
        }
    }
}

#[test]
fn squeeze_twice_single_vs_once_double() {
    for alg in [XofAlgorithm::Shake128, XofAlgorithm::Shake256] {
        let bs = alg.block_size();
        let mut a = XofSession::start(alg, 0).unwrap();
        assert_eq!(a.complete_absorb(b"input", 0), Ok(()));
        let one = a.prepare_squeeze(&vec![0u8; bs]).unwrap();
        assert_eq!(a.complete_squeeze(one, 0), Ok(()));
        assert_eq!(a.complete_squeeze(one, 0), Ok(()));
        let mut b = XofSession::start(alg, 0).unwrap();
        assert_eq!(b.complete_absorb(b"input", 0), Ok(()));
        let two = b.prepare_squeeze(&vec![0u8; 2 * bs]).unwrap();
        assert_eq!(two, 2 * one);
        assert_eq!(b.complete_squeeze(two, 0), Ok(()));
        assert_eq!(a.phase(), XofPhase::Absorbed);
        assert_eq!(b.phase(), XofPhase::Absorbed);
    }
}

#[test]
fn xof_lifecycle_phases() {
    let mut s = XofSession::start(XofAlgorithm::Shake256, 0).unwrap();
    assert_eq!(s.algorithm(), XofAlgorithm::Shake256);
    assert_eq!(s.phase(), XofPhase::Initialized);
    assert_eq!(s.prepare_input(b"abc"), Ok(3));
    assert_eq!(s.complete_update(b"abc", 0), Ok(()));
    assert_eq!(s.phase(), XofPhase::Updated);
    assert_eq!(s.prepare_finalize(&[0u8; 32]), Ok(32));
    assert_eq!(s.complete_finalize(0), Ok(()));
    assert_eq!(s.phase(), XofPhase::Finalized);
    assert_eq!(s.restart(0), Ok(()));
    assert_eq!(s.phase(), XofPhase::Initialized);
}

#[test]
fn xof_native_failures_are_passed_back() {
    assert!(matches!(XofSession::start(XofAlgorithm::Shake128, -173), Err(-173)));
    let mut s = XofSession::start(XofAlgorithm::Shake128, 0).unwrap();
    assert_eq!(s.complete_absorb(b"x", -173), Err(-173));
    assert_eq!(s.phase(), XofPhase::Initialized);
    assert_eq!(s.complete_absorb(b"x", 0), Ok(()));
    assert_eq!(s.complete_squeeze(1, -173), Err(-173));
    assert_eq!(s.complete_finalize(-5), Err(-5));
    assert_eq!(s.phase(), XofPhase::Absorbed);
}
