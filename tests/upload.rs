use objectstorex::errors::ErrorKind;
use objectstorex::upload::{
    abort_upload, complete_upload, start_upload_session, upload_chunk, UploadSession, UploadState,
    PART_SIZE,
};

const MIB: usize = 1024 * 1024;

#[test]
fn part_size_is_five_mebibytes() {
    assert_eq!(PART_SIZE, 5 * MIB);
    let s = start_upload_session();
    assert_eq!(s.part_size(), 5 * MIB);
    assert_eq!(s.state(), UploadState::Open);
    assert_eq!(s.buffered_len(), 0);
}

#[test]
fn small_chunks_stay_buffered() {
    let mut s = UploadSession::with_part_size(10);
    assert_eq!(upload_chunk(&mut s, &[1, 2, 3]), Ok(None));
    assert_eq!(upload_chunk(&mut s, &[4, 5]), Ok(None));
    assert_eq!(s.buffered_len(), 5);
}

#[test]
fn reaching_threshold_exactly_flushes_whole_buffer() {
    let mut s = UploadSession::with_part_size(4);
    assert_eq!(upload_chunk(&mut s, &[1, 2]), Ok(None));
    assert_eq!(upload_chunk(&mut s, &[3, 4]), Ok(Some(vec![1, 2, 3, 4])));
    assert_eq!(s.buffered_len(), 0);
}

#[test]
fn flush_drains_bytes_above_threshold_too() {
    let mut s = UploadSession::with_part_size(4);
    assert_eq!(upload_chunk(&mut s, &[1, 2, 3]), Ok(None));
    assert_eq!(upload_chunk(&mut s, &[4, 5, 6]), Ok(Some(vec![1, 2, 3, 4, 5, 6])));
    assert_eq!(s.buffered_len(), 0);
}

#[test]
fn parts_cover_all_bytes_in_order() {
    let threshold = 5;
    let mut s = UploadSession::with_part_size(threshold);
    let chunks: Vec<Vec<u8>> = vec![
        vec![0, 1],
        vec![2, 3, 4, 5, 6, 7],
        vec![],
        vec![8],
        vec![9, 10, 11],
        vec![12, 13, 14, 15, 16],
        vec![17, 18],
    ];
    let mut parts: Vec<Vec<u8>> = Vec::new();
    let mut total = 0usize;
    for c in &chunks {
        total += c.len();
        if let Some(p) = upload_chunk(&mut s, c).unwrap() {
            parts.push(p);
        }
    }
    if let Some(p) = complete_upload(&mut s).unwrap() {
        parts.push(p);
    }
    let joined: Vec<u8> = parts.concat();
    assert_eq!(joined.len(), total);
    assert_eq!(joined, (0u8..19).collect::<Vec<u8>>());
    for p in &parts[..parts.len() - 1] {
        assert!(p.len() >= threshold);
    }
    assert_eq!(parts, vec![
        vec![0, 1, 2, 3, 4, 5, 6, 7],
        vec![8, 9, 10, 11, 12, 13, 14, 15, 16],
        vec![17, 18],
    ]);
}

#[test]
fn complete_with_nothing_uploads_no_part() {
    let mut s = start_upload_session();
    assert_eq!(complete_upload(&mut s), Ok(None));
    assert_eq!(s.state(), UploadState::Completed);
}

#[test]
fn complete_hands_out_undersized_final_part() {
    let mut s = start_upload_session();
    assert_eq!(upload_chunk(&mut s, b"abc"), Ok(None));
    assert_eq!(complete_upload(&mut s), Ok(Some(b"abc".to_vec())));
    assert_eq!(s.buffered_len(), 0);
}

#[test]
fn append_after_complete_is_invalid_state() {
    let mut s = start_upload_session();
    complete_upload(&mut s).unwrap();
    assert_eq!(upload_chunk(&mut s, b"x"), Err(ErrorKind::InvalidSessionState));
    assert_eq!(s.buffered_len(), 0);
}

#[test]
fn append_after_abort_is_invalid_state() {
    let mut s = start_upload_session();
    assert_eq!(upload_chunk(&mut s, b"xyz"), Ok(None));
    assert_eq!(abort_upload(&mut s), Ok(()));
    assert_eq!(s.state(), UploadState::Aborted);
    assert_eq!(s.buffered_len(), 0);
    assert_eq!(upload_chunk(&mut s, b"x"), Err(ErrorKind::InvalidSessionState));
}

#[test]
fn second_complete_or_abort_is_invalid_state() {
    let mut s = start_upload_session();
    complete_upload(&mut s).unwrap();
    assert_eq!(complete_upload(&mut s), Err(ErrorKind::InvalidSessionState));
    assert_eq!(abort_upload(&mut s), Err(ErrorKind::InvalidSessionState));
    assert_eq!(s.state(), UploadState::Completed);

    let mut t = start_upload_session();
    abort_upload(&mut t).unwrap();
    assert_eq!(abort_upload(&mut t), Err(ErrorKind::InvalidSessionState));
    assert_eq!(complete_upload(&mut t), Err(ErrorKind::InvalidSessionState));
    assert_eq!(t.state(), UploadState::Aborted);
}

#[test]
fn three_then_four_mebibytes_with_full_drain() {
    let mut s = start_upload_session();
    let a = vec![1u8; 3 * MIB];
    let b = vec![2u8; 4 * MIB];
    assert_eq!(upload_chunk(&mut s, &a), Ok(None));
    assert_eq!(s.buffered_len(), 3 * MIB);
    let part = upload_chunk(&mut s, &b).unwrap().expect("threshold crossed");
    assert_eq!(part.len(), 7 * MIB);
    assert_eq!(&part[..3 * MIB], &a[..]);
    assert_eq!(&part[3 * MIB..], &b[..]);
    assert_eq!(s.buffered_len(), 0);
    assert_eq!(complete_upload(&mut s), Ok(None));
}

#[test]
fn sessions_get_random_version_four_ids() {
    let a = start_upload_session();
    let b = start_upload_session();
    assert_ne!(a.session_id(), b.session_id());
    assert_eq!((a.session_id() >> 76) & 0xF, 4);
    assert_eq!((a.session_id() >> 62) & 0x3, 2);
}
