use filecoin::proofs::api::{
    finalize_ticket, finalize_ticket_inputs, generate_candidates, generate_data_commitment, generate_piece_commitment,
    generate_post, get_max_user_bytes_per_staged_sector, seal_commit, seal_pre_commit, unseal,
    unseal_inputs, unseal_range, unseal_range_inputs, verify_post, verify_post_inputs,
    verify_seal, verify_seal_inputs, write_with_alignment, write_with_alignment_response,
    write_without_alignment,
};
use filecoin::proofs::error::{ErrorKind, ProofsError};
use filecoin::proofs::types::{
    Candidate, FCPResponseStatus, FFICandidate, FFIPublicPieceInfo, FFISealPreCommitOutput,
    FFISectorClass,
};
use rand::{thread_rng, Rng};

const FR_MODULUS: [u8; 32] = [
    1, 0, 0, 0, 255, 255, 255, 255, 254, 91, 254, 255, 2, 164, 189, 83, 5, 216, 161, 9, 8, 216, 57,
    51, 72, 125, 157, 41, 83, 167, 237, 115,
];

#[test]
fn test_write_with_and_without_alignment() {
    // some bytes to be used as the byte source
    let mut rng = thread_rng();
    let buf: Vec<u8> = (0..508).map(|_| rng.gen()).collect();

    // first piece occupies 4 nodes in a merkle tree built over the
    // destination (after preprocessing)
    let src_a = &buf[0..127];

    // second occupies 16 nodes
    let src_b = &buf[0..508];

    // a buffer to be used as the byte destination
    let mut dest: Vec<u8> = Vec::new();

    // write the first piece
    let resp = write_without_alignment(src_a, 127, &mut dest);

    if resp.status_code != FCPResponseStatus::FCPNoError {
        panic!("write_without_alignment failed: {:?}", resp.error_msg);
    }

    assert_eq!(
        resp.total_write_unpadded, 127,
        "should have added 127 bytes of (unpadded) left alignment"
    );

    // write the second
    let existing = vec![127u64];

    let resp = write_with_alignment(src_b, 508, &mut dest, &existing);

    if resp.status_code != FCPResponseStatus::FCPNoError {
        panic!("write_with_alignment failed: {:?}", resp.error_msg);
    }

    assert_eq!(
        resp.left_alignment_unpadded, 381,
        "should have added 381 bytes of (unpadded) left alignment"
    );
}

#[test]
fn write_appends_padded_bytes_to_the_target() {
    let src = vec![0xabu8; 127];
    let mut dest: Vec<u8> = vec![9, 9, 9];
    let resp = write_without_alignment(&src, 127, &mut dest);
    assert_eq!(resp.status_code, FCPResponseStatus::FCPNoError);
    assert!(resp.error_msg.is_empty());
    assert_eq!(resp.total_write_unpadded, 127);
    assert_eq!(&dest[0..3], &[9, 9, 9]);
    assert_eq!(dest.len(), 3 + 128);
    assert_ne!(resp.comm_p, [0u8; 32]);

    let more = vec![0xcdu8; 508];
    let resp = write_with_alignment(&more, 508, &mut dest, &[127]);
    assert_eq!(resp.status_code, FCPResponseStatus::FCPNoError);
    assert_eq!(resp.left_alignment_unpadded, 381);
    assert_eq!(resp.total_write_unpadded, 889);
    // 384 padded bytes of alignment and 512 padded bytes of the piece
    assert_eq!(dest.len(), 3 + 128 + 384 + 512);
    assert!(dest[3 + 128..3 + 128 + 384].iter().all(|b| *b == 0));
}

#[test]
fn write_without_gap_needs_no_alignment() {
    let piece = vec![1u8; 127];
    let mut dest: Vec<u8> = Vec::new();
    let resp = write_with_alignment(&piece, 127, &mut dest, &[127]);
    assert_eq!(resp.status_code, FCPResponseStatus::FCPNoError);
    assert_eq!(resp.left_alignment_unpadded, 0);
    assert_eq!(resp.total_write_unpadded, 127);
}

#[test]
fn write_refuses_a_wrong_source_size() {
    let src = vec![1u8; 127];
    let mut dest: Vec<u8> = vec![5];
    let resp = write_with_alignment(&src, 508, &mut dest, &[]);
    assert_eq!(resp.status_code, FCPResponseStatus::FCPUnclassifiedError);
    assert_eq!(resp.error_msg, "source does not hold the announced bytes");
    assert_eq!(resp.comm_p, [0u8; 32]);
    assert_eq!(dest, vec![5]);

    let resp = write_without_alignment(&src, 126, &mut dest);
    assert_eq!(resp.status_code, FCPResponseStatus::FCPUnclassifiedError);
    assert!(!resp.error_msg.is_empty());
    assert_eq!(dest, vec![5]);
}

#[test]
fn write_refuses_lengths_beyond_the_budget() {
    let src = vec![1u8; 127];
    let mut dest: Vec<u8> = Vec::new();
    let resp = write_with_alignment(&src, 127, &mut dest, &[u64::MAX, 127]);
    assert_eq!(resp.status_code, FCPResponseStatus::FCPUnclassifiedError);
    assert_eq!(resp.error_msg, "sizes are too large to be summed");
    assert!(dest.is_empty());

    let resp = write_with_alignment(&src, 127, &mut dest, &[u64::MAX / 4, 1]);
    assert_eq!(resp.status_code, FCPResponseStatus::FCPUnclassifiedError);
    assert!(dest.is_empty());
}

#[test]
fn write_refuses_a_piece_that_does_not_fill_its_slot() {
    for size in [0usize, 1, 100, 126, 128, 253, 255, 381, 509, 1000] {
        let src = vec![1u8; size];
        let mut dest: Vec<u8> = vec![4, 2];
        let resp = write_without_alignment(&src, size as u64, &mut dest);
        assert_eq!(resp.status_code, FCPResponseStatus::FCPUnclassifiedError);
        assert_eq!(resp.error_msg, "piece must hold 127 bytes times a power of two");
        assert_eq!(resp.comm_p, [0u8; 32]);
        assert_eq!(resp.total_write_unpadded, 0);
        assert_eq!(dest, vec![4, 2]);

        let resp = write_with_alignment(&src, size as u64, &mut dest, &[127]);
        assert_eq!(resp.status_code, FCPResponseStatus::FCPUnclassifiedError);
        assert_eq!(resp.error_msg, "piece must hold 127 bytes times a power of two");
        assert_eq!(resp.comm_p, [0u8; 32]);
        assert_eq!(resp.left_alignment_unpadded, 0);
        assert_eq!(resp.total_write_unpadded, 0);
        assert_eq!(dest, vec![4, 2]);
    }
    // the engine itself refuses such a piece as well
    let mut target: Vec<u8> = Vec::new();
    assert!(filecoin_proofs::write_and_preprocess(
        &[1u8; 100][..],
        &mut target,
        filecoin_proofs::UnpaddedBytesAmount(100)
    )
    .is_err());
}

#[test]
fn write_accepts_every_piece_that_fills_its_slot() {
    for size in [127usize, 254, 508, 1016, 2032] {
        let src = vec![9u8; size];
        let mut dest: Vec<u8> = Vec::new();
        let resp = write_without_alignment(&src, size as u64, &mut dest);
        assert_eq!(resp.status_code, FCPResponseStatus::FCPNoError);
        assert_eq!(resp.total_write_unpadded, size as u64);
        assert_eq!(dest.len(), size / 127 * 128);
    }
}

#[test]
fn left_alignment_is_the_gap_to_the_next_boundary() {
    let cases: [(&[u64], usize, u64); 6] = [
        (&[], 508, 0),
        (&[127], 127, 0),
        (&[127], 254, 127),
        (&[127], 508, 381),
        (&[127, 127], 508, 254),
        (&[508, 127], 1016, 381),
    ];
    for (existing, size, gap) in cases {
        let src = vec![7u8; size];
        let mut dest: Vec<u8> = Vec::new();
        let resp = write_with_alignment(&src, size as u64, &mut dest, existing);
        assert_eq!(resp.status_code, FCPResponseStatus::FCPNoError);
        assert_eq!(resp.left_alignment_unpadded, gap);
        assert_eq!(resp.total_write_unpadded, gap + size as u64);
    }
}

#[test]
fn write_response_reports_a_fault_for_too_few_bytes() {
    let resp = write_with_alignment_response(508, Ok((500, [3u8; 32])));
    assert_eq!(resp.status_code, FCPResponseStatus::FCPUnclassifiedError);
    assert_eq!(resp.error_msg, "Rust panic: no unwind information");
    assert_eq!(resp.left_alignment_unpadded, 0);

    let resp = write_with_alignment_response(508, Ok((889, [3u8; 32])));
    assert_eq!(resp.status_code, FCPResponseStatus::FCPNoError);
    assert_eq!(resp.left_alignment_unpadded, 381);
    assert_eq!(resp.total_write_unpadded, 889);
    assert_eq!(resp.comm_p, [3u8; 32]);
}

#[test]
fn max_user_bytes_follow_the_padding() {
    assert_eq!(get_max_user_bytes_per_staged_sector(1024), 1016);
    assert_eq!(get_max_user_bytes_per_staged_sector(2048), 2032);
    assert_eq!(get_max_user_bytes_per_staged_sector(1000), 992);
    assert_eq!(get_max_user_bytes_per_staged_sector(127), 126);
    assert_eq!(get_max_user_bytes_per_staged_sector(128), 127);
    assert_eq!(get_max_user_bytes_per_staged_sector(33), 32);
    assert_eq!(get_max_user_bytes_per_staged_sector(32), 31);
    assert_eq!(get_max_user_bytes_per_staged_sector(31), 31);
    assert_eq!(get_max_user_bytes_per_staged_sector(0), 0);
    assert_eq!(get_max_user_bytes_per_staged_sector(1 << 35), (1u64 << 35) / 128 * 127);
}

#[test]
fn max_user_bytes_beyond_the_largest_sector() {
    assert_eq!(
        get_max_user_bytes_per_staged_sector((1u64 << 50) + 5),
        1117103813820421
    );
    assert_eq!(
        get_max_user_bytes_per_staged_sector(u64::MAX),
        18302628885633695743
    );
}

#[test]
fn max_user_bytes_agree_with_the_engine() {
    for size in [0u64, 1, 31, 32, 33, 127, 128, 129, 255, 256, 1000, 1024, 2048, 1 << 23, 1 << 36] {
        let expected: u64 =
            filecoin_proofs::UnpaddedBytesAmount::from(filecoin_proofs::SectorSize(size)).into();
        assert_eq!(get_max_user_bytes_per_staged_sector(size), expected);
    }
}

#[test]
fn unseal_asks_for_the_whole_sector() {
    let class = FFISectorClass { sector_size: 1024, porep_proof_partitions: 2 };
    assert_eq!(unseal_inputs(&class), (0, 1016));
}

#[test]
fn unseal_range_checks_the_range() {
    let class = FFISectorClass { sector_size: 1024, porep_proof_partitions: 2 };
    assert_eq!(unseal_range_inputs(&class, 0, 1016).unwrap(), (0, 1016));
    assert_eq!(unseal_range_inputs(&class, 16, 1000).unwrap(), (16, 1000));
    assert_eq!(unseal_range_inputs(&class, 1016, 0).unwrap(), (1016, 0));

    let err = unseal_range_inputs(&class, 0, 1017).unwrap_err();
    assert!(matches!(err, ProofsError::Range { offset: 0, length: 1017, capacity: 1016 }));
    assert_eq!(err.kind(), ErrorKind::Range);
    let err = unseal_range_inputs(&class, 1017, 0).unwrap_err();
    assert!(matches!(err, ProofsError::Range { .. }));
    let err = unseal_range_inputs(&class, u64::MAX, u64::MAX).unwrap_err();
    assert!(matches!(err, ProofsError::Range { .. }));

    let resp = unseal_range(Err(err));
    assert_eq!(resp.status_code, FCPResponseStatus::FCPUnclassifiedError);
    assert_eq!(resp.error_msg, "range lies outside the sector");
    let resp = unseal_range(Ok(()));
    assert_eq!(resp.status_code, FCPResponseStatus::FCPNoError);
    assert!(resp.error_msg.is_empty());
}

#[test]
fn unseal_reports_how_it_ended() {
    let resp = unseal(Ok(()));
    assert_eq!(resp.status_code, FCPResponseStatus::FCPNoError);
    assert!(resp.error_msg.is_empty());
    let resp = unseal(Err(ProofsError::Seal("no such file".to_string())));
    assert_eq!(resp.status_code, FCPResponseStatus::FCPUnclassifiedError);
    assert_eq!(resp.error_msg, "no such file");
}

#[test]
fn seal_pre_commit_reports_how_it_ended() {
    let output = FFISealPreCommitOutput { comm_d: [4u8; 32], comm_r: [8u8; 32] };
    let resp = seal_pre_commit(Ok(output));
    assert_eq!(resp.status_code, FCPResponseStatus::FCPNoError);
    assert!(resp.error_msg.is_empty());
    assert_eq!(resp.seal_pre_commit_output.comm_d, [4u8; 32]);
    assert_eq!(resp.seal_pre_commit_output.comm_r, [8u8; 32]);

    let resp = seal_pre_commit(Err(ProofsError::Seal("disk full".to_string())));
    assert_eq!(resp.status_code, FCPResponseStatus::FCPUnclassifiedError);
    assert_eq!(resp.error_msg, "disk full");
    assert_eq!(resp.seal_pre_commit_output.comm_d, [0u8; 32]);
    assert_eq!(resp.seal_pre_commit_output.comm_r, [0u8; 32]);
}

#[test]
fn seal_commit_reports_how_it_ended() {
    let resp = seal_commit(Ok(vec![1, 2, 3]));
    assert_eq!(resp.status_code, FCPResponseStatus::FCPNoError);
    assert_eq!(resp.proof, vec![1, 2, 3]);

    let resp = seal_commit(Err(ProofsError::Fault));
    assert_eq!(resp.status_code, FCPResponseStatus::FCPUnclassifiedError);
    assert_eq!(resp.error_msg, "Rust panic: no unwind information");
    assert!(resp.proof.is_empty());
}

#[test]
fn verify_seal_inputs_derive_the_partitions() {
    let proof = vec![7u8; 384];
    let (cfg, bytes) = verify_seal_inputs(1024, Some(&proof)).unwrap();
    assert_eq!(cfg.sector_size, 1024);
    assert_eq!(cfg.partitions, 2);
    assert_eq!(bytes, proof);

    let proof = vec![7u8; 192];
    let (cfg, _) = verify_seal_inputs(2048, Some(&proof)).unwrap();
    assert_eq!(cfg.partitions, 1);

    let proof = vec![7u8; 192 * 255];
    let (cfg, _) = verify_seal_inputs(2048, Some(&proof)).unwrap();
    assert_eq!(cfg.partitions, 255);
}

#[test]
fn verify_seal_inputs_refuse_malformed_proofs() {
    let err = verify_seal_inputs(1024, None).unwrap_err();
    assert!(matches!(err, ProofsError::ProofsNull));
    assert_eq!(err.kind(), ErrorKind::Decode);

    let err = verify_seal_inputs(1024, Some(&[])).unwrap_err();
    assert!(matches!(err, ProofsError::ZeroProofChunk));

    let err = verify_seal_inputs(1024, Some(&[1u8; 191])).unwrap_err();
    assert!(matches!(err, ProofsError::NoPartitions { len: 191 }));
    assert_eq!(err.kind(), ErrorKind::Decode);

    // 256 partitions are more than a sector class can name
    let err = verify_seal_inputs(1024, Some(&vec![7u8; 192 * 256])).unwrap_err();
    assert!(matches!(err, ProofsError::NoPartitions { len: 49152 }));
    assert_eq!(err.kind(), ErrorKind::Decode);

    let resp = verify_seal(Err(err));
    assert_eq!(resp.status_code, FCPResponseStatus::FCPUnclassifiedError);
    assert!(!resp.error_msg.is_empty());
    assert!(!resp.is_valid);
}

#[test]
fn verify_seal_reports_how_it_ended() {
    let resp = verify_seal(Ok(true));
    assert_eq!(resp.status_code, FCPResponseStatus::FCPNoError);
    assert!(resp.is_valid);
    let resp = verify_seal(Ok(false));
    assert_eq!(resp.status_code, FCPResponseStatus::FCPNoError);
    assert!(!resp.is_valid);
    let resp = verify_seal(Err(ProofsError::Proof("bad proof bytes".to_string())));
    assert_eq!(resp.status_code, FCPResponseStatus::FCPUnclassifiedError);
    assert_eq!(resp.error_msg, "bad proof bytes");
    assert!(!resp.is_valid);
}

#[test]
fn verify_post_reports_how_it_ended() {
    let resp = verify_post(Ok(true));
    assert_eq!(resp.status_code, FCPResponseStatus::FCPNoError);
    assert!(resp.is_valid);
    let resp = verify_post(Ok(false));
    assert_eq!(resp.status_code, FCPResponseStatus::FCPNoError);
    assert!(!resp.is_valid);
    let resp = verify_post(Err(ProofsError::WinnersNull));
    assert_eq!(resp.status_code, FCPResponseStatus::FCPUnclassifiedError);
    assert_eq!(resp.error_msg, "winners_ptr must not be null");
    assert!(!resp.is_valid);
}

fn winner(sector_id: u64, partial_ticket: [u8; 32]) -> FFICandidate {
    FFICandidate { sector_id, partial_ticket, ticket: [sector_id as u8; 32], sector_challenge_index: 3 }
}

#[test]
fn verify_post_inputs_decode_everything() {
    let sector_ids = [42u64, 7];
    let mut comm_rs = vec![1u8; 32];
    comm_rs.extend_from_slice(&[2u8; 32]);
    let proofs = vec![5u8; 192 + 10];
    let winners = [winner(42, [0u8; 32]), winner(7, [1u8; 32])];

    let inputs =
        verify_post_inputs(Some(&sector_ids), Some(&comm_rs), Some(&proofs), Some(&winners))
            .unwrap();
    assert_eq!(inputs.replicas.len(), 2);
    assert_eq!(inputs.replicas[&42], [1u8; 32]);
    assert_eq!(inputs.replicas[&7], [2u8; 32]);
    assert_eq!(inputs.proofs.len(), 2);
    assert_eq!(inputs.proofs[0], vec![5u8; 192]);
    assert_eq!(inputs.proofs[1], vec![5u8; 10]);
    assert_eq!(inputs.winners.len(), 2);
    assert_eq!(inputs.winners[0].sector_id, 42);
    assert_eq!(inputs.winners[1].partial_ticket, [1u8; 32]);
    assert_eq!(inputs.winners[1].ticket, [7u8; 32]);
    assert_eq!(inputs.winners[1].sector_challenge_index, 3);
}

#[test]
fn verify_post_inputs_refuse_in_order() {
    let sector_ids = [42u64];
    let comm_rs = vec![1u8; 32];
    let proofs = vec![5u8; 192];
    let good = [winner(42, [0u8; 32])];
    let bad = [winner(42, [0u8; 32]), winner(43, FR_MODULUS)];

    let err = verify_post_inputs(None, None, None, None).unwrap_err();
    assert!(matches!(err, ProofsError::SectorIdsNull));
    let err = verify_post_inputs(Some(&sector_ids), None, None, None).unwrap_err();
    assert!(matches!(err, ProofsError::CommRsNull));
    let err = verify_post_inputs(Some(&sector_ids), Some(&comm_rs[..31]), None, None).unwrap_err();
    assert!(matches!(err, ProofsError::CommRsLength { len: 31 }));
    let err = verify_post_inputs(Some(&[1, 2]), Some(&comm_rs), None, None).unwrap_err();
    assert!(matches!(err, ProofsError::ReplicaCountMismatch { sector_ids: 2, comm_rs: 1 }));
    let err = verify_post_inputs(Some(&sector_ids), Some(&[0u8; 32]), None, None).unwrap_err();
    assert!(matches!(err, ProofsError::ZeroCommitment));
    let err = verify_post_inputs(Some(&sector_ids), Some(&comm_rs), None, None).unwrap_err();
    assert!(matches!(err, ProofsError::FlattenedProofNull));
    let err = verify_post_inputs(Some(&sector_ids), Some(&comm_rs), Some(&proofs), None).unwrap_err();
    assert!(matches!(err, ProofsError::WinnersNull));
    let err = verify_post_inputs(Some(&sector_ids), Some(&comm_rs), Some(&proofs), Some(&bad))
        .unwrap_err();
    assert!(matches!(err, ProofsError::BadFrBytes));
    assert!(
        verify_post_inputs(Some(&sector_ids), Some(&comm_rs), Some(&proofs), Some(&good)).is_ok()
    );
}

#[test]
fn finalize_ticket_inputs_look_at_the_partial_ticket() {
    assert_eq!(finalize_ticket_inputs(&[0u8; 32]).unwrap(), [0u8; 32]);
    let mut below = FR_MODULUS;
    below[0] = 0;
    assert_eq!(finalize_ticket_inputs(&below).unwrap(), below);

    let err = finalize_ticket_inputs(&FR_MODULUS).unwrap_err();
    assert!(matches!(err, ProofsError::BadFrBytes));
    let err = finalize_ticket_inputs(&[0xffu8; 32]).unwrap_err();
    assert!(matches!(err, ProofsError::BadFrBytes));
    let mut above = FR_MODULUS;
    above[0] = 2;
    assert!(finalize_ticket_inputs(&above).is_err());
    let mut high = [0u8; 32];
    high[31] = 0x74;
    assert!(finalize_ticket_inputs(&high).is_err());
    high[31] = 0x73;
    assert!(finalize_ticket_inputs(&high).is_ok());
}

#[test]
fn finalize_ticket_reports_how_it_ended() {
    let resp = finalize_ticket(Ok([6u8; 32]));
    assert_eq!(resp.status_code, FCPResponseStatus::FCPNoError);
    assert!(resp.error_msg.is_empty());
    assert_eq!(resp.ticket, [6u8; 32]);

    let resp = finalize_ticket(finalize_ticket_inputs(&FR_MODULUS));
    assert_eq!(resp.status_code, FCPResponseStatus::FCPUnclassifiedError);
    assert_eq!(resp.error_msg, "Bytes could not be converted to Fr");
    assert_eq!(resp.ticket, [0u8; 32]);
}

#[test]
fn data_commitment_of_an_empty_sector() {
    let resp = generate_data_commitment(1024, &[]);
    assert_eq!(resp.status_code, FCPResponseStatus::FCPNoError);
    assert_ne!(resp.comm_d, [0u8; 32]);
    let again = generate_data_commitment(1024, &[]);
    assert_eq!(resp.comm_d, again.comm_d);
    let other = generate_data_commitment(2048, &[]);
    assert_ne!(resp.comm_d, other.comm_d);
    let smallest = generate_data_commitment(128, &[]);
    assert_eq!(smallest.status_code, FCPResponseStatus::FCPNoError);

    for size in [0u64, 1, 64, 127, 1000, 1536] {
        let resp = generate_data_commitment(size, &[]);
        assert_eq!(resp.status_code, FCPResponseStatus::FCPUnclassifiedError);
        assert_eq!(resp.error_msg, "Rust panic: no unwind information");
        assert_eq!(resp.comm_d, [0u8; 32]);
    }
}

#[test]
fn data_commitment_of_one_full_piece_is_its_commitment() {
    let src = vec![0x5au8; 1016];
    let mut dest: Vec<u8> = Vec::new();
    let written = write_without_alignment(&src, 1016, &mut dest);
    assert_eq!(written.status_code, FCPResponseStatus::FCPNoError);
    assert_eq!(written.total_write_unpadded, 1016);

    let pieces = [FFIPublicPieceInfo { num_bytes: 1016, comm_p: written.comm_p }];
    let resp = generate_data_commitment(1024, &pieces);
    assert_eq!(resp.status_code, FCPResponseStatus::FCPNoError);
    assert!(resp.error_msg.is_empty());
    assert_eq!(resp.comm_d, written.comm_p);
}

#[test]
fn data_commitment_joins_two_pieces() {
    let pieces = [
        FFIPublicPieceInfo { num_bytes: 508, comm_p: [1u8; 32] },
        FFIPublicPieceInfo { num_bytes: 508, comm_p: [2u8; 32] },
    ];
    let resp = generate_data_commitment(1024, &pieces);
    assert_eq!(resp.status_code, FCPResponseStatus::FCPNoError);
    assert_ne!(resp.comm_d, [0u8; 32]);
    assert_ne!(resp.comm_d, [1u8; 32]);
    assert_ne!(resp.comm_d, [2u8; 32]);

    let expected = filecoin_proofs::compute_comm_d(
        filecoin_proofs::SectorSize(1024),
        &[
            filecoin_proofs::PieceInfo {
                commitment: [1u8; 32],
                size: filecoin_proofs::UnpaddedBytesAmount(508),
            },
            filecoin_proofs::PieceInfo {
                commitment: [2u8; 32],
                size: filecoin_proofs::UnpaddedBytesAmount(508),
            },
        ],
    )
    .unwrap();
    assert_eq!(resp.comm_d, expected);
}

#[test]
fn data_commitment_refuses_pieces_larger_than_the_sector() {
    let pieces = [
        FFIPublicPieceInfo { num_bytes: 1016, comm_p: [1u8; 32] },
        FFIPublicPieceInfo { num_bytes: 1016, comm_p: [2u8; 32] },
    ];
    let resp = generate_data_commitment(1024, &pieces);
    assert_eq!(resp.status_code, FCPResponseStatus::FCPUnclassifiedError);
    assert_eq!(resp.error_msg, "Piece is larger than sector.");
    assert_eq!(resp.comm_d, [0u8; 32]);

    let huge = [
        FFIPublicPieceInfo { num_bytes: u64::MAX, comm_p: [1u8; 32] },
        FFIPublicPieceInfo { num_bytes: u64::MAX, comm_p: [2u8; 32] },
    ];
    let resp = generate_data_commitment(1024, &huge);
    assert_eq!(resp.status_code, FCPResponseStatus::FCPUnclassifiedError);

    let resp = generate_data_commitment(u64::MAX, &pieces);
    assert_eq!(resp.status_code, FCPResponseStatus::FCPUnclassifiedError);
    assert_eq!(resp.error_msg, "sizes are too large to be summed");
}

#[test]
fn data_commitment_reports_the_engine_error() {
    // 500 bytes are no piece size
    let pieces = [FFIPublicPieceInfo { num_bytes: 500, comm_p: [1u8; 32] }];
    let resp = generate_data_commitment(1024, &pieces);
    assert_eq!(resp.status_code, FCPResponseStatus::FCPUnclassifiedError);
    assert!(!resp.error_msg.is_empty());
    assert_eq!(resp.comm_d, [0u8; 32]);
}

#[test]
fn piece_commitment_reports_how_it_ended() {
    let resp = generate_piece_commitment(Ok(([9u8; 32], 1016)));
    assert_eq!(resp.status_code, FCPResponseStatus::FCPNoError);
    assert_eq!(resp.comm_p, [9u8; 32]);
    assert_eq!(resp.num_bytes_aligned, 1016);
    let resp = generate_piece_commitment(Err(ProofsError::Seal("short read".to_string())));
    assert_eq!(resp.status_code, FCPResponseStatus::FCPUnclassifiedError);
    assert_eq!(resp.error_msg, "short read");
    assert_eq!(resp.comm_p, [0u8; 32]);
    assert_eq!(resp.num_bytes_aligned, 0);
}

#[test]
fn generate_candidates_hands_the_candidates_on() {
    let output = vec![
        Candidate { sector_id: 42, partial_ticket: [1u8; 32], ticket: [2u8; 32], sector_challenge_index: 0 },
        Candidate { sector_id: 43, partial_ticket: [3u8; 32], ticket: [4u8; 32], sector_challenge_index: 9 },
    ];
    let resp = generate_candidates(Ok(output));
    assert_eq!(resp.status_code, FCPResponseStatus::FCPNoError);
    assert_eq!(resp.candidates.len(), 2);
    assert_eq!(resp.candidates[0].sector_id, 42);
    assert_eq!(resp.candidates[0].partial_ticket, [1u8; 32]);
    assert_eq!(resp.candidates[0].ticket, [2u8; 32]);
    assert_eq!(resp.candidates[0].sector_challenge_index, 0);
    assert_eq!(resp.candidates[1].sector_id, 43);
    assert_eq!(resp.candidates[1].sector_challenge_index, 9);

    let resp = generate_candidates(Err(ProofsError::ReplicasNull));
    assert_eq!(resp.status_code, FCPResponseStatus::FCPUnclassifiedError);
    assert_eq!(resp.error_msg, "replicas_ptr must not be null");
    assert!(resp.candidates.is_empty());
}

#[test]
fn generate_post_flattens_the_proofs() {
    let resp = generate_post(Ok(vec![vec![1, 2], vec![], vec![3], vec![4, 5, 6]]));
    assert_eq!(resp.status_code, FCPResponseStatus::FCPNoError);
    assert_eq!(resp.flattened_proofs, vec![1, 2, 3, 4, 5, 6]);

    let resp = generate_post(Ok(vec![]));
    assert_eq!(resp.status_code, FCPResponseStatus::FCPNoError);
    assert!(resp.flattened_proofs.is_empty());

    let resp = generate_post(Err(ProofsError::Proof("replica cannot be opened".to_string())));
    assert_eq!(resp.status_code, FCPResponseStatus::FCPUnclassifiedError);
    assert_eq!(resp.error_msg, "replica cannot be opened");
    assert!(resp.flattened_proofs.is_empty());
}
