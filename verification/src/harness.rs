//! The single-run harness: which backends an ad-hoc run exercises, and the
//! line that reports one backend's count and time.

use vstd::prelude::*;

verus! {

/// The move-generation libraries that an ad-hoc run can exercise.
#[derive(Debug, Clone, Copy, PartialEq, Eq, Structural)]
pub enum Backend {
    Chess,
    ChessNightly,
    Shakmaty,
    Chessie,
    CozyChess,
}

/// The backends chosen for one run, a flag for each.
#[derive(Debug, Clone, Copy, PartialEq, Eq, Structural)]
pub struct Selection {
    pub chess: bool,
    pub chess_nightly: bool,
    pub shakmaty: bool,
    pub chessie: bool,
    pub cozy_chess: bool,
}

/// The chosen backends in the order in which a run takes them.
pub open spec fn run_order(s: Selection) -> Seq<Backend> {
    (if s.chess {
        seq![Backend::Chess]
    } else {
        Seq::empty()
    }) + (if s.chess_nightly {
        seq![Backend::ChessNightly]
    } else {
        Seq::empty()
    }) + (if s.shakmaty {
        seq![Backend::Shakmaty]
    } else {
        Seq::empty()
    }) + (if s.chessie {
        seq![Backend::Chessie]
    } else {
        Seq::empty()
    }) + (if s.cozy_chess {
        seq![Backend::CozyChess]
    } else {
        Seq::empty()
    })
}

/// The label that opens a backend's report line; all labels have one width.
pub open spec fn label_text(b: Backend) -> Seq<char> {
    match b {
        Backend::Chess => "chess         "@,
        Backend::ChessNightly => "chess_nightly "@,
        Backend::Shakmaty => "shakmaty      "@,
        Backend::Chessie => "chessie       "@,
        Backend::CozyChess => "cozy-chess    "@,
    }
}

/// The character of a decimal digit.
pub open spec fn digit_char(d: nat) -> char
    recommends
        d < 10,
{
    if d == 0 {
        '0'
    } else if d == 1 {
        '1'
    } else if d == 2 {
        '2'
    } else if d == 3 {
        '3'
    } else if d == 4 {
        '4'
    } else if d == 5 {
        '5'
    } else if d == 6 {
        '6'
    } else if d == 7 {
        '7'
    } else if d == 8 {
        '8'
    } else {
        '9'
    }
}

/// A number in decimal, without sign and without zeros in front.
pub open spec fn decimal_text(n: nat) -> Seq<char>
    decreases n,
{
    if n < 10 {
        seq![digit_char(n)]
    } else {
        decimal_text(n / 10).push(digit_char(n % 10))
    }
}

/// The whole milliseconds in a number of nanoseconds.
pub open spec fn millis_of(nanos: nat) -> nat {
    nanos / 1_000_000
}

/// The line that reports one backend's run: label, depth, position, count,
/// and the time in whole seconds and the milliseconds beyond them.
pub open spec fn report_text(
    b: Backend,
    depth: nat,
    fen: Seq<char>,
    nodes: nat,
    secs: nat,
    subsec_nanos: nat,
) -> Seq<char> {
    label_text(b) + ": Perft "@ + decimal_text(depth) + " of "@ + fen + "\tResult: "@
        + decimal_text(nodes) + "\tTime: "@ + decimal_text(secs) + "s "@ + decimal_text(
        millis_of(subsec_nanos),
    ) + "ms"@
}

impl Selection {
    /// The selection that the command line's flags ask for. The `chess`
    /// backend is the default and always runs; `all` switches every backend
    /// on.
    pub fn from_flags(
        chess: bool,
        chess_nightly: bool,
        shakmaty: bool,
        chessie: bool,
        cozy_chess: bool,
        all: bool,
    ) -> (r: Selection)
        ensures
            r == (Selection {
                chess: true,
                chess_nightly: chess_nightly || all,
                shakmaty: shakmaty || all,
                chessie: chessie || all,
                cozy_chess: cozy_chess || all,
            }),
    {
        Selection {
            chess: true,
            chess_nightly: chess_nightly || all,
            shakmaty: shakmaty || all,
            chessie: chessie || all,
            cozy_chess: cozy_chess || all,
        }
    }

    /// The chosen backends, in the order in which a run takes them.
    pub fn backends(&self) -> (r: Vec<Backend>)
        ensures
            r@ == run_order(*self),
    {
        let mut out: Vec<Backend> = Vec::new();
        if self.chess {
            out.push(Backend::Chess);
        }
        if self.chess_nightly {
            out.push(Backend::ChessNightly);
        }
        if self.shakmaty {
            out.push(Backend::Shakmaty);
        }
        if self.chessie {
            out.push(Backend::Chessie);
        }
        if self.cozy_chess {
            out.push(Backend::CozyChess);
        }
        assert(out@ =~= run_order(*self));
        out
    }
}

impl Backend {
    /// The label that opens this backend's report line.
    pub fn label(&self) -> (r: &'static str)
        ensures
            r@ == label_text(*self),
    {
        match self {
            Backend::Chess => "chess         ",
            Backend::ChessNightly => "chess_nightly ",
            Backend::Shakmaty => "shakmaty      ",
            Backend::Chessie => "chessie       ",
            Backend::CozyChess => "cozy-chess    ",
        }
    }
}

/// The text of one decimal digit.
fn digit_str(d: u64) -> (r: &'static str)
    requires
        d < 10,
    ensures
        r@ == seq![digit_char(d as nat)],
{
    proof {
        reveal_strlit("0");
        reveal_strlit("1");
        reveal_strlit("2");
        reveal_strlit("3");
        reveal_strlit("4");
        reveal_strlit("5");
        reveal_strlit("6");
        reveal_strlit("7");
        reveal_strlit("8");
        reveal_strlit("9");
    }
    let r = if d == 0 {
        "0"
    } else if d == 1 {
        "1"
    } else if d == 2 {
        "2"
    } else if d == 3 {
        "3"
    } else if d == 4 {
        "4"
    } else if d == 5 {
        "5"
    } else if d == 6 {
        "6"
    } else if d == 7 {
        "7"
    } else if d == 8 {
        "8"
    } else {
        "9"
    };
    assert(r@ =~= seq![digit_char(d as nat)]);
    r
}

/// Appends `n` in decimal to `out`.
pub fn push_decimal(n: u64, out: &mut String)
    ensures
        final(out)@ == old(out)@ + decimal_text(n as nat),
    decreases n,
{
    if n >= 10 {
        push_decimal(n / 10, out);
    }
    out.append(digit_str(n % 10));
    proof {
        if n >= 10 {
            assert(out@ =~= old(out)@ + decimal_text(n as nat));
        } else {
            assert(out@ =~= old(out)@ + decimal_text(n as nat));
        }
    }
}

/// `n` in decimal.
pub fn decimal(n: u64) -> (r: String)
    ensures
        r@ == decimal_text(n as nat),
{
    let mut out = String::new();
    push_decimal(n, &mut out);
    assert(out@ =~= decimal_text(n as nat));
    out
}

/// Builds the line that reports one backend's run, without a line end.
pub fn report_line(
    backend: Backend,
    depth: u64,
    fen: &str,
    nodes: u64,
    secs: u64,
    subsec_nanos: u32,
) -> (r: String)
    ensures
        r@ == report_text(
            backend,
            depth as nat,
            fen@,
            nodes as nat,
            secs as nat,
            subsec_nanos as nat,
        ),
{
    let millis: u64 = (subsec_nanos / 1_000_000) as u64;
    let mut out = String::from_str(backend.label());
    out.append(": Perft ");
    push_decimal(depth, &mut out);
    out.append(" of ");
    out.append(fen);
    out.append("\tResult: ");
    push_decimal(nodes, &mut out);
    out.append("\tTime: ");
    push_decimal(secs, &mut out);
    out.append("s ");
    push_decimal(millis, &mut out);
    out.append("ms");
    assert(out@ =~= report_text(
        backend,
        depth as nat,
        fen@,
        nodes as nat,
        secs as nat,
        subsec_nanos as nat,
    ));
    out
}

} // verus!
