use chess_gui::square::{File, Rank, Square};

#[test]
fn name_is_file_letter_then_rank_digit() {
    assert_eq!(Square { file: File::E, rank: Rank::Four }.name(), "e4");
    assert_eq!(Square { file: File::A, rank: Rank::One }.name(), "a1");
    assert_eq!(Square { file: File::H, rank: Rank::Eight }.name(), "h8");
    assert_eq!(Square { file: File::C, rank: Rank::Seven }.name(), "c7");
}

#[test]
fn file_index_round_trip() {
    for i in 0u8..8 {
        let f = File::from_index(i).unwrap();
        assert_eq!(f.to_index(), i);
    }
    assert_eq!(File::from_index(0), Some(File::A));
    assert_eq!(File::from_index(7), Some(File::H));
    assert_eq!(File::from_index(8), None);
    assert_eq!(File::from_index(255), None);
}

#[test]
fn rank_number_round_trip() {
    for n in 1u8..=8 {
        let r = Rank::from_number(n).unwrap();
        assert_eq!(r.to_number(), n);
    }
    assert_eq!(Rank::from_number(1), Some(Rank::One));
    assert_eq!(Rank::from_number(8), Some(Rank::Eight));
    assert_eq!(Rank::from_number(0), None);
    assert_eq!(Rank::from_number(9), None);
}

#[test]
fn file_and_rank_strings() {
    assert_eq!(File::A.as_str(), "a");
    assert_eq!(File::D.as_str(), "d");
    assert_eq!(File::H.as_str(), "h");
    assert_eq!(Rank::One.as_str(), "1");
    assert_eq!(Rank::Five.as_str(), "5");
    assert_eq!(Rank::Eight.as_str(), "8");
}

#[test]
fn model_index_runs_from_a1_along_the_ranks() {
    assert_eq!(Square { file: File::A, rank: Rank::One }.model_index(), 0);
    assert_eq!(Square { file: File::H, rank: Rank::One }.model_index(), 7);
    assert_eq!(Square { file: File::A, rank: Rank::Two }.model_index(), 8);
    assert_eq!(Square { file: File::E, rank: Rank::Four }.model_index(), 28);
    assert_eq!(Square { file: File::A, rank: Rank::Eight }.model_index(), 56);
    assert_eq!(Square { file: File::H, rank: Rank::Eight }.model_index(), 63);
}

#[test]
fn names_and_model_indices_are_all_different() {
    let mut names = Vec::new();
    let mut seen = [false; 64];
    for i in 0u8..8 {
        for n in 1u8..=8 {
            let s = Square {
                file: File::from_index(i).unwrap(),
                rank: Rank::from_number(n).unwrap(),
            };
            let name = s.name();
            assert!(!names.contains(&name));
            names.push(name);
            assert!(!seen[s.model_index()]);
            seen[s.model_index()] = true;
        }
    }
    assert_eq!(names.len(), 64);
}
