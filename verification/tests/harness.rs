use chess_perft::harness::{decimal, push_decimal, report_line, Backend, Selection};

#[test]
fn decimal_writes_numbers_as_usual() {
    assert_eq!(decimal(0), "0");
    assert_eq!(decimal(7), "7");
    assert_eq!(decimal(10), "10");
    assert_eq!(decimal(1440467), "1440467");
    assert_eq!(decimal(1000000), "1000000");
    assert_eq!(decimal(u64::MAX), "18446744073709551615");
}

#[test]
fn decimal_agrees_with_the_standard_library() {
    let mut n: u64 = 1;
    for _ in 0..64 {
        assert_eq!(decimal(n), n.to_string());
        assert_eq!(decimal(n - 1), (n - 1).to_string());
        n = n.wrapping_mul(2);
    }
    for n in 0..2000u64 {
        assert_eq!(decimal(n), n.to_string());
    }
}

#[test]
fn push_decimal_appends() {
    let mut out = "n=".to_string();
    push_decimal(824064, &mut out);
    assert_eq!(out, "n=824064");
}

#[test]
fn labels_have_one_width() {
    assert_eq!(Backend::Chess.label(), "chess         ");
    assert_eq!(Backend::ChessNightly.label(), "chess_nightly ");
    assert_eq!(Backend::Shakmaty.label(), "shakmaty      ");
    assert_eq!(Backend::Chessie.label(), "chessie       ");
    assert_eq!(Backend::CozyChess.label(), "cozy-chess    ");
}

#[test]
fn a_report_line_gives_depth_position_count_and_time() {
    let fen = "rnbqkbnr/pppppppp/8/8/8/8/PPPPPPPP/RNBQKBNR w KQkq - 0 1";
    assert_eq!(
        report_line(Backend::Chess, 6, fen, 119060324, 1, 234_567_890),
        "chess         : Perft 6 of rnbqkbnr/pppppppp/8/8/8/8/PPPPPPPP/RNBQKBNR w KQkq - 0 1\tResult: 119060324\tTime: 1s 234ms"
    );
    assert_eq!(
        report_line(Backend::CozyChess, 0, "", 1, 0, 999_999),
        "cozy-chess    : Perft 0 of \tResult: 1\tTime: 0s 0ms"
    );
    assert_eq!(
        report_line(Backend::Shakmaty, 3, "f", 8902, 12, 999_999_999),
        "shakmaty      : Perft 3 of f\tResult: 8902\tTime: 12s 999ms"
    );
}

#[test]
fn the_chess_backend_always_runs() {
    let s = Selection::from_flags(false, false, false, false, false, false);
    assert_eq!(
        s,
        Selection { chess: true, chess_nightly: false, shakmaty: false, chessie: false, cozy_chess: false }
    );
    assert_eq!(s.backends(), vec![Backend::Chess]);
}

#[test]
fn every_flag_switches_its_backend_on() {
    let s = Selection::from_flags(true, false, true, false, true, false);
    assert_eq!(s.backends(), vec![Backend::Chess, Backend::Shakmaty, Backend::CozyChess]);
    let s = Selection::from_flags(false, true, false, true, false, false);
    assert_eq!(s.backends(), vec![Backend::Chess, Backend::ChessNightly, Backend::Chessie]);
}

#[test]
fn all_switches_every_backend_on() {
    let s = Selection::from_flags(false, false, false, false, false, true);
    assert_eq!(
        s.backends(),
        vec![
            Backend::Chess,
            Backend::ChessNightly,
            Backend::Shakmaty,
            Backend::Chessie,
            Backend::CozyChess,
        ]
    );
}

#[test]
fn a_selection_runs_in_a_fixed_order() {
    let s = Selection { chess: false, chess_nightly: true, shakmaty: false, chessie: true, cozy_chess: true };
    assert_eq!(s.backends(), vec![Backend::ChessNightly, Backend::Chessie, Backend::CozyChess]);
    let s = Selection { chess: false, chess_nightly: false, shakmaty: false, chessie: false, cozy_chess: false };
    assert_eq!(s.backends(), Vec::new());
}
