use watcher_rs::write::{
    batch_size_of, batches_after, frame_bytes, frame_range_at, frame_ranges, index_path, is_segment_file, log_path,
    segment_path, BatchInfo, WriterState, PER_BATCH_SIZE,
};

#[test]
fn frames_round_trip() {
    let mut bytes = frame_bytes(b"abc");
    assert_eq!(bytes, vec![3, 0, 0, 0, b'a', b'b', b'c']);
    bytes.extend(frame_bytes(b""));
    bytes.extend(frame_bytes(&[9u8; 300]));
    let ranges = frame_ranges(&bytes).unwrap();
    assert_eq!(ranges, vec![(4, 3), (11, 0), (15, 300)]);
    assert_eq!(&bytes[15..315], &[9u8; 300][..]);
}

#[test]
fn truncated_frames_are_refused() {
    let mut bytes = frame_bytes(b"abcdef");
    bytes.pop();
    assert_eq!(frame_ranges(&bytes), None);
    assert_eq!(frame_ranges(&[1, 0]), Some(vec![]));
}

#[test]
fn frame_at_offset() {
    let mut bytes = frame_bytes(b"xy");
    bytes.extend(frame_bytes(b"hello"));
    assert_eq!(frame_range_at(&bytes, 0), Some((4, 2)));
    assert_eq!(frame_range_at(&bytes, 6), Some((10, 5)));
    assert_eq!(frame_range_at(&bytes, 7), None);
    assert_eq!(frame_range_at(&bytes, 100), None);
}

#[test]
fn segment_and_index_paths() {
    assert_eq!(segment_path("/home/u/.local/state/watcher-rs", 12), "/home/u/.local/state/watcher-rs/events.bin.12");
    assert_eq!(log_path("/s"), "/s/events.bin.0");
    assert_eq!(index_path("/s/"), "/s/index.bin");
    assert!(is_segment_file("events.bin.3"));
    assert!(!is_segment_file("index.bin"));
}

#[test]
fn pruning_keeps_later_segments() {
    let infos = vec![
        BatchInfo { segment_id: 0, file_offset: 0, count: 1 },
        BatchInfo { segment_id: 0, file_offset: 10, count: 2 },
        BatchInfo { segment_id: 1, file_offset: 0, count: 3 },
        BatchInfo { segment_id: 2, file_offset: 0, count: 4 },
    ];
    assert_eq!(batches_after(&infos, 0), infos[2..].to_vec());
    assert_eq!(batches_after(&infos, 5), Vec::<BatchInfo>::new());
    assert_eq!(batches_after(&infos[2..], 0), infos[2..].to_vec());
}

#[test]
fn default_batch_info() {
    let b = BatchInfo::default();
    assert_eq!(b, BatchInfo { segment_id: 0, file_offset: 0, count: PER_BATCH_SIZE });
}

#[test]
fn writer_rotates_and_evicts() {
    let mut w = WriterState::new();
    assert!(!WriterState::batch_ready(999));
    assert!(WriterState::batch_ready(1000));
    assert!(!w.rotate_for(0, 5000, 100));
    assert_eq!(w.segment_id, 0);
    w.record_write(60);
    assert!(!w.rotate_for(60, 40, 100));
    assert!(w.rotate_for(60, 41, 100));
    assert_eq!(w.segment_id, 1);
    w.record_write(41);
    assert_eq!(w.total_size, 101);
    assert!(w.must_evict(100));
    w.evicted(60);
    assert_eq!((w.total_size, w.oldest_segment_id), (41, 1));
    assert!(!w.must_evict(10));
    let info = w.finish_batch(77);
    assert_eq!(info, BatchInfo { segment_id: 1, file_offset: 77, count: 1 });
    assert_eq!(batch_size_of(10), 14);
}

#[test]
fn segment_paths_are_distinct_and_start_with_the_log() {
    let d = "/var/lib/w";
    assert_eq!(segment_path(d, 0), log_path(d));
    assert_ne!(segment_path(d, 1), segment_path(d, 11));
    assert_ne!(segment_path(d, 10), segment_path(d, 1));
    assert!(segment_path(d, 7).ends_with("/events.bin.7"));
}

#[test]
fn eviction_brings_storage_under_the_limit() {
    // three segments of 40 bytes each, limit 70: the two oldest go
    let mut w = WriterState::new();
    w.record_write(40);
    assert!(w.rotate_for(40, 40, 50));
    w.record_write(40);
    assert!(w.rotate_for(40, 40, 50));
    w.record_write(40);
    let mut removed = 0;
    while w.must_evict(70) {
        w.evicted(40);
        removed += 1;
    }
    assert_eq!(removed, 2);
    assert_eq!((w.total_size, w.oldest_segment_id, w.segment_id), (40, 2, 2));
    // a single oversized segment is kept
    let mut big = WriterState::new();
    big.record_write(500);
    assert!(!big.must_evict(70));
}

#[test]
fn index_and_batches_read_back_after_appends() {
    let mut file: Vec<u8> = Vec::new();
    let payloads: Vec<Vec<u8>> = vec![b"first".to_vec(), vec![], vec![7u8; 40]];
    let mut offsets = Vec::new();
    for p in &payloads {
        offsets.push(file.len() as u64);
        file.extend(frame_bytes(p));
    }
    let ranges = frame_ranges(&file).unwrap();
    let back: Vec<Vec<u8>> = ranges.iter().map(|&(s, l)| file[s..s + l].to_vec()).collect();
    assert_eq!(back, payloads);
    for (i, &off) in offsets.iter().enumerate() {
        let (s, l) = frame_range_at(&file, off).unwrap();
        assert_eq!(&file[s..s + l], payloads[i].as_slice());
    }
}
