use borsh::to_vec;
use pda_local::error::{ProcessError, ReviewError};
use pda_local::instruction::MovieInstruction;
use pda_local::state::{MovieAccountState, MovieComment, MovieCommentCounter};

fn key(b: u8) -> [u8; 32] {
    [b; 32]
}

fn review(title: &str, description: &str, initialized: bool) -> MovieAccountState {
    MovieAccountState {
        discriminant: "review".to_string(),
        reviewer: key(7),
        is_initialized: initialized,
        rating: 4,
        title: title.to_string(),
        description: description.to_string(),
    }
}

#[test]
fn account_sizes_follow_their_formulas() {
    assert_eq!(MovieCommentCounter::get_account_size(), 19);
    assert_eq!(
        MovieAccountState::get_account_size("abc".to_string(), "hello".to_string()),
        20 + 3 + 5
    );
    assert_eq!(MovieAccountState::get_account_size(String::new(), String::new()), 20);
    assert_eq!(MovieComment::get_account_size("hi".to_string()), 89);
    // UTF-8 byte counts, not characters
    assert_eq!(MovieComment::get_account_size("é".to_string()), 89);
}

#[test]
fn discriminators() {
    assert_eq!(MovieAccountState::DISCRIMINATOR, "review");
    assert_eq!(MovieCommentCounter::DISCRIMINATOR, "counter");
    assert_eq!(MovieComment::DISCRIMINATOR, "comment");
}

#[test]
fn review_layout_matches_borsh() {
    let r = review("Dune", "sand", true);
    let expected = to_vec(&(
        "review".to_string(),
        key(7),
        true,
        4u8,
        "Dune".to_string(),
        "sand".to_string(),
    ))
    .unwrap();
    assert_eq!(r.pack().unwrap(), expected);
    assert_eq!(expected.len(), 52 + 4 + 4);
}

#[test]
fn counter_layout_matches_borsh() {
    let c = MovieCommentCounter {
        discriminant: "counter".to_string(),
        is_initialized: true,
        counter: 0x0102_0304_0506_0708,
    };
    let expected = to_vec(&("counter".to_string(), true, 0x0102_0304_0506_0708u64)).unwrap();
    assert_eq!(c.pack().unwrap(), expected);
    assert_eq!(expected.len(), 20);
}

#[test]
fn comment_layout_matches_borsh() {
    let c = MovieComment {
        discriminant: "comment".to_string(),
        is_initialized: false,
        review: key(1),
        commenter: key(2),
        comment: "great film ✓".to_string(),
        count: 9,
    };
    let expected = to_vec(&(
        "comment".to_string(),
        false,
        key(1),
        key(2),
        "great film ✓".to_string(),
        9u64,
    ))
    .unwrap();
    assert_eq!(c.pack().unwrap(), expected);
}

#[test]
fn review_roundtrip_ignores_trailing_bytes() {
    let r = review("Alien", "space horror", true);
    let mut bytes = r.pack().unwrap();
    bytes.extend_from_slice(&[9, 9, 9]);
    let back = MovieAccountState::unpack(&bytes).unwrap();
    assert_eq!(back.discriminant, "review");
    assert_eq!(back.reviewer, key(7));
    assert!(back.is_initialized());
    assert_eq!(back.rating, 4);
    assert_eq!(back.title, "Alien");
    assert_eq!(back.description, "space horror");
}

#[test]
fn counter_and_comment_roundtrip() {
    let c = MovieCommentCounter {
        discriminant: "counter".to_string(),
        is_initialized: true,
        counter: u64::MAX,
    };
    let back = MovieCommentCounter::unpack(&c.pack().unwrap()).unwrap();
    assert_eq!(back.counter, u64::MAX);
    assert!(back.is_initialized());
    let m = MovieComment {
        discriminant: "comment".to_string(),
        is_initialized: true,
        review: key(3),
        commenter: key(4),
        comment: "ok".to_string(),
        count: 12,
    };
    let back = MovieComment::unpack(&m.pack().unwrap()).unwrap();
    assert_eq!(back.review, key(3));
    assert_eq!(back.commenter, key(4));
    assert_eq!(back.comment, "ok");
    assert_eq!(back.count, 12);
    assert!(back.is_initialized());
}

#[test]
fn zeroed_account_decodes_only_when_long_enough() {
    // a fresh account is all zeros: empty strings, a zero key, false, zero
    let zeros = vec![0u8; 46];
    let r = MovieAccountState::unpack(&zeros).unwrap();
    assert!(!r.is_initialized());
    assert_eq!(r.title, "");
    assert!(MovieAccountState::unpack(&zeros[..45]).is_none());
    assert!(MovieCommentCounter::unpack(&[0u8; 13]).is_some());
    assert!(MovieCommentCounter::unpack(&[0u8; 12]).is_none());
    assert!(MovieComment::unpack(&[0u8; 81]).is_some());
    assert!(MovieComment::unpack(&[0u8; 80]).is_none());
}

#[test]
fn bad_bool_and_bad_utf8_do_not_decode() {
    let mut bytes = MovieCommentCounter {
        discriminant: String::new(),
        is_initialized: true,
        counter: 1,
    }
    .pack()
    .unwrap();
    bytes[4] = 2;
    assert!(MovieCommentCounter::unpack(&bytes).is_none());
    let bad = vec![2u8, 0, 0, 0, 0xff, 0xfe, 0, 0, 0, 0, 0, 0, 0, 0, 0];
    assert!(MovieCommentCounter::unpack(&bad).is_none());
}

#[test]
fn write_into_keeps_the_tail_or_fails_unchanged() {
    let c = MovieCommentCounter {
        discriminant: "counter".to_string(),
        is_initialized: true,
        counter: 3,
    };
    let mut data = vec![0xaau8; 24];
    assert_eq!(c.write_into(&mut data), Ok(()));
    assert_eq!(&data[..20], c.pack().unwrap().as_slice());
    assert_eq!(&data[20..], &[0xaa; 4]);
    let back = MovieCommentCounter::unpack(&data).unwrap();
    assert_eq!(back.counter, 3);

    let mut small = vec![0x55u8; 19];
    assert_eq!(c.write_into(&mut small), Err(ProcessError::BorshIoError));
    assert_eq!(small, c.pack().unwrap()[..19].to_vec());
    let (written, complete) = c.serialize();
    assert!(complete);
    assert_eq!(written, c.pack().unwrap());
}

fn review_instruction(variant: u8, title: &str, rating: u8, description: &str) -> Vec<u8> {
    let mut data = vec![variant];
    data.extend(to_vec(&(title.to_string(), rating, description.to_string())).unwrap());
    data
}

#[test]
fn unpack_reads_each_instruction() {
    match MovieInstruction::unpack(&review_instruction(0, "Heat", 5, "crime")).unwrap() {
        MovieInstruction::AddMovieReview { title, rating, description } => {
            assert_eq!(title, "Heat");
            assert_eq!(rating, 5);
            assert_eq!(description, "crime");
        }
        _ => panic!("wrong instruction"),
    }
    match MovieInstruction::unpack(&review_instruction(1, "Heat", 2, "long")).unwrap() {
        MovieInstruction::UpdateMovieReview { title, rating, description } => {
            assert_eq!(title, "Heat");
            assert_eq!(rating, 2);
            assert_eq!(description, "long");
        }
        _ => panic!("wrong instruction"),
    }
    let mut comment = vec![2u8];
    comment.extend(to_vec(&"nice".to_string()).unwrap());
    match MovieInstruction::unpack(&comment).unwrap() {
        MovieInstruction::AddComment { comment } => assert_eq!(comment, "nice"),
        _ => panic!("wrong instruction"),
    }
    assert!(matches!(MovieInstruction::unpack(&[3]), Ok(MovieInstruction::InitializeMint)));
    assert!(matches!(MovieInstruction::unpack(&[3, 1, 2]), Ok(MovieInstruction::InitializeMint)));
}

#[test]
fn unpack_refuses_bad_data() {
    assert!(matches!(MovieInstruction::unpack(&[]), Err(ProcessError::InvalidInstructionData)));
    assert!(matches!(MovieInstruction::unpack(&[4]), Err(ProcessError::InvalidInstructionData)));
    let mut extra = review_instruction(0, "a", 1, "b");
    extra.push(0);
    assert!(matches!(MovieInstruction::unpack(&extra), Err(ProcessError::UndecodableData)));
    assert!(matches!(MovieInstruction::unpack(&[0, 1, 0]), Err(ProcessError::UndecodableData)));
    assert!(matches!(
        MovieInstruction::unpack(&[2, 2, 0, 0, 0, 0xc3, 0x28]),
        Err(ProcessError::UndecodableData)
    ));
}

#[test]
fn review_error_codes() {
    assert_eq!(ReviewError::UninitializedAccount.code(), 0);
    assert_eq!(ReviewError::InvalidPDA.code(), 1);
    assert_eq!(ReviewError::InvalidDataLength.code(), 2);
    assert_eq!(ReviewError::InvalidRating.code(), 3);
    assert_eq!(ReviewError::IncorrectAccountError.code(), 4);
}
