use chess_perft::error::GenError;
use chess_perft::model::PositionCase;
use chess_perft::normalize::{normalize_ids, padding_width};

fn position(id: &str) -> PositionCase {
    PositionCase {
        id: id.to_string(),
        fen: "8/8/8/8/8/8/8/8 w - - 0 1".to_string(),
        depth: "6".to_string(),
        expected: "824064".to_string(),
    }
}

fn ids(positions: &[PositionCase]) -> Vec<String> {
    positions.iter().map(|p| p.id.clone()).collect()
}

#[test]
fn ids_one_and_ten_normalize_to_width_two() {
    let positions = vec![
        PositionCase {
            id: "1".to_string(),
            fen: "...".to_string(),
            depth: "6".to_string(),
            expected: "824064".to_string(),
        },
        PositionCase {
            id: "10".to_string(),
            fen: "...".to_string(),
            depth: "6".to_string(),
            expected: "824064".to_string(),
        },
    ];
    assert_eq!(padding_width(&positions), Ok(2));
    let out = normalize_ids(&positions).unwrap();
    assert_eq!(ids(&out), vec!["01", "10"]);
}

#[test]
fn width_is_that_of_the_longest_numeric_id() {
    let positions = vec![position("7"), position("123"), position("45"), position("kiwipete")];
    assert_eq!(padding_width(&positions), Ok(3));
}

#[test]
fn width_does_not_depend_on_the_order() {
    let forward = vec![position("1"), position("22"), position("333")];
    let backward = vec![position("333"), position("22"), position("1")];
    assert_eq!(padding_width(&forward), Ok(3));
    assert_eq!(padding_width(&backward), Ok(3));
}

#[test]
fn numeric_ids_all_get_the_same_length() {
    let positions = vec![position("1"), position("20"), position("300"), position("4000")];
    let out = normalize_ids(&positions).unwrap();
    assert_eq!(ids(&out), vec!["0001", "0020", "0300", "4000"]);
    assert!(out.iter().all(|p| p.id.len() == 4));
}

#[test]
fn symbolic_ids_pass_through_unchanged() {
    let positions = vec![position("1"), position("kiwipete"), position("100"), position("ab")];
    let out = normalize_ids(&positions).unwrap();
    assert_eq!(ids(&out), vec!["001", "kiwipete", "100", "ab"]);
}

#[test]
fn an_id_that_only_starts_with_a_digit_is_symbolic() {
    let positions = vec![position("12"), position("3b")];
    assert_eq!(padding_width(&positions), Ok(2));
    let out = normalize_ids(&positions).unwrap();
    assert_eq!(ids(&out), vec!["12", "3b"]);
}

#[test]
fn an_empty_id_is_symbolic() {
    let positions = vec![position(""), position("5")];
    let out = normalize_ids(&positions).unwrap();
    assert_eq!(ids(&out), vec!["", "5"]);
}

#[test]
fn the_other_fields_are_kept() {
    let positions = vec![PositionCase {
        id: "3".to_string(),
        fen: "8/8/1k6/2b5/2pP4/8/5K2/8 b - d3 0 1".to_string(),
        depth: "06".to_string(),
        expected: "1440467".to_string(),
    }, position("10")];
    let out = normalize_ids(&positions).unwrap();
    assert_eq!(out.len(), 2);
    assert_eq!(out[0].id, "03");
    assert_eq!(out[0].fen, "8/8/1k6/2b5/2pP4/8/5K2/8 b - d3 0 1");
    assert_eq!(out[0].depth, "06");
    assert_eq!(out[0].expected, "1440467");
    assert_eq!(out[1], position("10"));
}

#[test]
fn no_position_at_all_is_an_empty_input_set() {
    let positions: Vec<PositionCase> = Vec::new();
    assert_eq!(padding_width(&positions), Err(GenError::EmptyInputSet));
    assert_eq!(normalize_ids(&positions), Err(GenError::EmptyInputSet));
}

#[test]
fn symbolic_ids_alone_are_an_empty_input_set() {
    let positions = vec![position("kiwipete"), position("startpos")];
    assert_eq!(padding_width(&positions), Err(GenError::EmptyInputSet));
    assert_eq!(normalize_ids(&positions), Err(GenError::EmptyInputSet));
}

#[test]
fn distinct_ids_stay_distinct() {
    let positions = vec![position("1"), position("2"), position("10"), position("kiwipete")];
    let out = ids(&normalize_ids(&positions).unwrap());
    for i in 0..out.len() {
        for j in 0..i {
            assert_ne!(out[i], out[j]);
        }
    }
}

#[test]
fn ids_that_differ_in_zeros_in_front_become_one() {
    let positions = vec![position("7"), position("007")];
    let out = normalize_ids(&positions).unwrap();
    assert_eq!(ids(&out), vec!["007", "007"]);
}

#[test]
fn normalizing_twice_changes_nothing_more() {
    let positions = vec![position("1"), position("kiwipete"), position("100")];
    let once = normalize_ids(&positions).unwrap();
    let twice = normalize_ids(&once).unwrap();
    assert_eq!(once, twice);
}
