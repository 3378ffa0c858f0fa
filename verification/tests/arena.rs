use byte_arena::ByteArena;
use byte_arena::ByteArenaError;
use bytes::Bytes;

#[test]
fn it_will_create_a_byte_arena() {
    let mut ba = ByteArena::builder().limit(5).size(1024).build();

    let block = Bytes::from("Hello ");
    ba.append(block).expect("append worked");
    let block = Bytes::from("Gary");
    ba.append(block).expect("append worked");
    let final_bytes = ba.into_contiguous();
    assert_eq!(
        "Hello Gary",
        std::str::from_utf8(&final_bytes).expect("it's a valid string")
    );
}

#[test]
fn it_enforces_block_limits() {
    let mut ba = ByteArena::builder().limit(2).size(1024).build();

    let b = ba.allocate();
    let _ = ba.append(b.freeze());
    let b = ba.allocate();
    let _ = ba.append(b.freeze());
    let b = ba.allocate();

    assert_eq!(ba.append(b.freeze()), Err(ByteArenaError::TooManyBlocks));
}

#[test]
fn it_enforces_block_sizes() {
    let mut ba = ByteArena::builder().limit(2).size(4).build();

    let block = Bytes::from_static(b"hello");

    assert_eq!(ba.append(block), Err(ByteArenaError::BlockTooLarge));
}

#[test]
fn limit_reached_keeps_count() {
    let mut ba = ByteArena::builder().limit(3).size(1024).build();

    for i in 0..3u8 {
        assert_eq!(ba.append(Bytes::from(vec![i])), Ok(i as usize));
    }
    // The fourth append fails however small the value is, and the count
    // stays at the limit.
    assert_eq!(
        ba.append(Bytes::from_static(b"x")),
        Err(ByteArenaError::TooManyBlocks)
    );
    assert_eq!(ba.into_sequence().len(), 3);
}

#[test]
fn oversized_block_leaves_arena_unchanged() {
    let mut ba = ByteArena::builder().limit(2).size(4).build();

    assert_eq!(
        ba.append(Bytes::from_static(b"hello")),
        Err(ByteArenaError::BlockTooLarge)
    );
    assert_eq!(ba.into_sequence().len(), 0);
}

#[test]
fn block_of_exactly_size_bytes_is_admitted() {
    let mut ba = ByteArena::builder().limit(2).size(4).build();

    assert_eq!(ba.append(Bytes::from_static(b"hell")), Ok(0));
    assert_eq!(ba.into_sequence(), vec![Bytes::from_static(b"hell")]);
}

#[test]
fn contiguous_is_concatenation() {
    let mut ba = ByteArena::builder().limit(10).size(16).build();

    ba.append(Bytes::from_static(&[1, 2])).expect("append worked");
    ba.append(Bytes::from_static(&[3])).expect("append worked");
    ba.append(Bytes::from_static(&[])).expect("append worked");
    ba.append(Bytes::from_static(&[4, 5, 6])).expect("append worked");
    assert_eq!(
        ba.into_contiguous(),
        Bytes::from_static(&[1, 2, 3, 4, 5, 6])
    );
}

#[test]
fn contiguous_of_empty_arena_is_empty() {
    let ba = ByteArena::builder().limit(8).size(8).build();
    assert_eq!(ba.into_contiguous(), Bytes::new());
}

#[test]
fn sequence_preserves_order_and_bytes() {
    let mut ba = ByteArena::builder().limit(4).size(8).build();

    ba.append(Bytes::from_static(b"one")).expect("append worked");
    ba.append(Bytes::from_static(b"two")).expect("append worked");
    ba.append(Bytes::from_static(b"three")).expect("append worked");
    assert_eq!(
        ba.into_sequence(),
        vec![
            Bytes::from_static(b"one"),
            Bytes::from_static(b"two"),
            Bytes::from_static(b"three"),
        ]
    );
}

#[test]
fn allocate_does_not_change_arena_state() {
    let mut ba = ByteArena::builder().limit(1).size(16).build();

    for _ in 0..5 {
        let scratch = ba.allocate();
        assert!(scratch.is_empty());
    }
    // The repeated allocations counted for nothing: one append still fits...
    assert_eq!(ba.append(Bytes::from_static(b"only")), Ok(0));
    for _ in 0..5 {
        let scratch = ba.allocate();
        assert!(scratch.is_empty());
    }
    // ...and the limit of one block is still enforced afterwards.
    assert_eq!(
        ba.append(Bytes::from_static(b"next")),
        Err(ByteArenaError::TooManyBlocks)
    );
    assert_eq!(ba.into_sequence(), vec![Bytes::from_static(b"only")]);
}

#[test]
fn count_check_precedes_size_check() {
    let mut ba = ByteArena::builder().limit(0).size(3).build();

    // The value violates both bounds; the count check fires first.
    assert_eq!(
        ba.append(Bytes::from_static(b"hello")),
        Err(ByteArenaError::TooManyBlocks)
    );
}

#[test]
fn two_empty_blocks_then_a_third_is_refused() {
    let mut ba = ByteArena::builder().limit(2).size(1024).build();

    assert_eq!(ba.append(Bytes::new()), Ok(0));
    assert_eq!(ba.append(Bytes::new()), Ok(1));
    assert_eq!(ba.append(Bytes::new()), Err(ByteArenaError::TooManyBlocks));
}

#[test]
fn default_arena_is_unbounded() {
    let mut ba = ByteArena::default();
    let mut expected: Vec<Bytes> = Vec::new();

    for i in 0..10_000usize {
        let block = Bytes::from(vec![(i % 251) as u8; i % 97]);
        expected.push(block.clone());
        assert_eq!(ba.append(block), Ok(i));
    }
    assert_eq!(ba.into_sequence(), expected);
}

#[test]
fn builder_defaults_are_unbounded() {
    let mut ba = ByteArena::builder().build();

    let big = Bytes::from(vec![7u8; 2_000_000]);
    assert_eq!(ba.append(big), Ok(0));
    let out = ba.into_contiguous();
    assert_eq!(out.len(), 2_000_000);
    assert!(out.iter().all(|b| *b == 7));
}
