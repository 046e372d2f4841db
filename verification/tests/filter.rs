use chess_perft::expand::expand;
use chess_perft::filter::aggregate;
use chess_perft::model::{BackendDescriptor, GeneratedEntry, PositionCase};

fn position(id: &str) -> PositionCase {
    PositionCase {
        id: id.to_string(),
        fen: "startpos".to_string(),
        depth: "3".to_string(),
        expected: "8902".to_string(),
    }
}

fn backend(display_name: &str, included: bool) -> BackendDescriptor {
    BackendDescriptor {
        function_name: format!("{}_perft", display_name),
        display_name: display_name.to_string(),
        included,
    }
}

fn names(entries: &[GeneratedEntry]) -> Vec<String> {
    entries.iter().map(|e| e.name.clone()).collect()
}

#[test]
fn an_excluded_backend_has_entries_but_is_not_in_the_aggregate() {
    let positions = vec![position("1"), position("2")];
    let backends = vec![backend("kept", true), backend("left_out", false)];
    let entries = expand(&positions, &backends).unwrap();
    assert_eq!(
        names(&entries),
        vec!["perft_1_kept", "perft_2_kept", "perft_1_left_out", "perft_2_left_out"]
    );
    let chosen = aggregate(&entries);
    assert_eq!(names(&chosen), vec!["perft_1_kept", "perft_2_kept"]);
    assert!(chosen.iter().all(|e| e.included));
    assert!(chosen.iter().all(|e| e.function_name == "kept_perft"));
}

#[test]
fn the_aggregate_has_n_entries_for_every_included_backend() {
    let positions = vec![position("1"), position("2"), position("3")];
    let backends = vec![
        backend("a", true),
        backend("b", false),
        backend("c", true),
        backend("d", false),
        backend("e", false),
    ];
    let entries = expand(&positions, &backends).unwrap();
    assert_eq!(entries.len(), 15);
    let chosen = aggregate(&entries);
    assert_eq!(chosen.len(), 3 * 2);
}

#[test]
fn the_aggregate_keeps_the_order() {
    let positions = vec![position("2"), position("1")];
    let backends = vec![backend("z", true), backend("m", false), backend("a", true)];
    let entries = expand(&positions, &backends).unwrap();
    let chosen = aggregate(&entries);
    assert_eq!(names(&chosen), vec!["perft_2_z", "perft_1_z", "perft_2_a", "perft_1_a"]);
}

#[test]
fn the_aggregate_copies_whole_entries() {
    let entries = expand(&vec![position("1")], &vec![backend("a", true)]).unwrap();
    assert_eq!(aggregate(&entries), entries);
}

#[test]
fn nothing_included_gives_an_empty_aggregate() {
    let positions = vec![position("1"), position("2")];
    let backends = vec![backend("a", false), backend("b", false)];
    let entries = expand(&positions, &backends).unwrap();
    assert_eq!(entries.len(), 4);
    assert_eq!(aggregate(&entries), Vec::new());
    assert_eq!(aggregate(&Vec::new()), Vec::new());
}

#[test]
fn entries_are_judged_by_their_own_flag() {
    let entry = |name: &str, included: bool| GeneratedEntry {
        name: name.to_string(),
        fen: "f".to_string(),
        depth: "1".to_string(),
        expected: "2".to_string(),
        function_name: "g".to_string(),
        included,
    };
    let entries = vec![entry("a", false), entry("b", true), entry("c", false), entry("d", true)];
    assert_eq!(names(&aggregate(&entries)), vec!["b", "d"]);
}
