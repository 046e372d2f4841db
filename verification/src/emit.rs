//! The emitter: the text of the artifact that the benchmark runner takes in.
//!
//! The artifact holds two macro definitions. The first expands to one
//! benchmark function for every entry; the second expands to the benchmark
//! group that lists the functions of the default run.

use vstd::prelude::*;
use crate::model::{views, EntryView, GeneratedEntry};

verus! {

/// Opens the macro that defines the benchmark functions.
pub const ENTRIES_OPEN: &'static str = "macro_rules! gen_perft_inputs_internal {\n\t() => {\n";

/// Closes the macro that defines the benchmark functions.
pub const ENTRIES_CLOSE: &'static str = "\t}\n}\n";

/// Opens the macro that lists the default run, up to and with the group's
/// name.
pub const NAMES_OPEN: &'static str =
    "macro_rules! get_names_internal {\n\t($group_name:tt) => {\n\t\tbenchmark_group!(\n\t\t\t$group_name,\n";

/// Closes the macro that lists the default run.
pub const NAMES_CLOSE: &'static str = "\t\t);\n\t}\n}\n";

/// Makes both macros visible to the rest of the runner's crate.
pub const EXPORTS: &'static str =
    "\n\npub(crate) use gen_perft_inputs_internal;\npub(crate) use get_names_internal;";

/// One benchmark function, up to its name.
pub const ENTRY_OPEN: &'static str = "\t\t#[allow(dead_code)]\n        fn ";

/// From a function's name to the name of the backend routine it calls.
pub const ENTRY_SIGNATURE: &'static str = "(bench: &mut Bencher) {\n            ";

/// From the backend routine's name to the FEN.
pub const ENTRY_CALL: &'static str = "(\n                bench,\n                \"";

/// From the FEN to the depth.
pub const ENTRY_FEN_CLOSE: &'static str = "\".to_string(),\n                ";

/// From the depth to the expected count.
pub const ENTRY_SEPARATOR: &'static str = ",\n                ";

/// From the expected count to the end of the function.
pub const ENTRY_CLOSE: &'static str = ",\n            )\n        }\n";

/// One line of the default run's list, up to the name.
pub const NAME_OPEN: &'static str = "\t\t\t";

/// One line of the default run's list, after the name.
pub const NAME_CLOSE: &'static str = ",\n";

/// The benchmark function of one entry: it bears the entry's name and hands
/// the entry's FEN, depth and expected count, as they are, to the routine of
/// the entry's backend.
pub open spec fn rendered_entry(e: EntryView) -> Seq<char> {
    ENTRY_OPEN@ + e.name + ENTRY_SIGNATURE@ + e.function_name + ENTRY_CALL@ + e.fen
        + ENTRY_FEN_CLOSE@ + e.depth + ENTRY_SEPARATOR@ + e.expected + ENTRY_CLOSE@
}

/// The line that lists one entry in the default run.
pub open spec fn rendered_name(e: EntryView) -> Seq<char> {
    NAME_OPEN@ + e.name + NAME_CLOSE@
}

/// The benchmark functions of `es`, one after the other.
pub open spec fn rendered_entries(es: Seq<EntryView>) -> Seq<char>
    decreases es.len(),
{
    if es.len() == 0 {
        Seq::empty()
    } else {
        rendered_entries(es.drop_last()) + rendered_entry(es.last())
    }
}

/// The lines that list `es`, one after the other.
pub open spec fn rendered_names(es: Seq<EntryView>) -> Seq<char>
    decreases es.len(),
{
    if es.len() == 0 {
        Seq::empty()
    } else {
        rendered_names(es.drop_last()) + rendered_name(es.last())
    }
}

/// The whole artifact: the functions of `all`, then the list of `chosen`,
/// then the exports.
pub open spec fn rendered_artifact(all: Seq<EntryView>, chosen: Seq<EntryView>) -> Seq<char> {
    ENTRIES_OPEN@ + rendered_entries(all) + ENTRIES_CLOSE@ + NAMES_OPEN@ + rendered_names(chosen)
        + NAMES_CLOSE@ + EXPORTS@
}

/// Appends the benchmark function of `entry` to `out`.
pub fn render_entry(entry: &GeneratedEntry, out: &mut String)
    ensures
        final(out)@ == old(out)@ + rendered_entry(entry@),
{
    out.append(ENTRY_OPEN);
    out.append(entry.name.as_str());
    out.append(ENTRY_SIGNATURE);
    out.append(entry.function_name.as_str());
    out.append(ENTRY_CALL);
    out.append(entry.fen.as_str());
    out.append(ENTRY_FEN_CLOSE);
    out.append(entry.depth.as_str());
    out.append(ENTRY_SEPARATOR);
    out.append(entry.expected.as_str());
    out.append(ENTRY_CLOSE);
    assert(out@ =~= old(out)@ + rendered_entry(entry@));
}

/// Appends the line that lists `entry` to `out`.
pub fn render_name(entry: &GeneratedEntry, out: &mut String)
    ensures
        final(out)@ == old(out)@ + rendered_name(entry@),
{
    out.append(NAME_OPEN);
    out.append(entry.name.as_str());
    out.append(NAME_CLOSE);
    assert(out@ =~= old(out)@ + rendered_name(entry@));
}

/// Renders the artifact: one benchmark function for every entry of
/// `entries`, in order, and the default run's list with exactly the entries
/// of `chosen`, in order.
pub fn render(entries: &Vec<GeneratedEntry>, chosen: &Vec<GeneratedEntry>) -> (r: String)
    ensures
        r@ == rendered_artifact(views(entries@), views(chosen@)),
{
    let ghost all = views(entries@);
    let ghost listed = views(chosen@);
    let mut out = String::from_str(ENTRIES_OPEN);
    let mut i: usize = 0;
    proof {
        assert(all.take(0) =~= Seq::<EntryView>::empty());
        assert(out@ =~= ENTRIES_OPEN@ + rendered_entries(all.take(0)));
    }
    while i < entries.len()
        invariant
            all == views(entries@),
            i <= entries.len(),
            out@ == ENTRIES_OPEN@ + rendered_entries(all.take(i as int)),
        decreases entries.len() - i,
    {
        render_entry(&entries[i], &mut out);
        proof {
            let next = all.take(i + 1);
            assert(next.drop_last() =~= all.take(i as int));
            assert(next.last() == entries[i as int]@);
            assert(out@ =~= ENTRIES_OPEN@ + rendered_entries(next));
        }
        i = i + 1;
    }
    proof {
        assert(all.take(i as int) =~= all);
    }
    out.append(ENTRIES_CLOSE);
    out.append(NAMES_OPEN);
    let ghost head = out@;
    let mut j: usize = 0;
    proof {
        assert(listed.take(0) =~= Seq::<EntryView>::empty());
        assert(out@ =~= head + rendered_names(listed.take(0)));
    }
    while j < chosen.len()
        invariant
            listed == views(chosen@),
            j <= chosen.len(),
            out@ == head + rendered_names(listed.take(j as int)),
        decreases chosen.len() - j,
    {
        render_name(&chosen[j], &mut out);
        proof {
            let next = listed.take(j + 1);
            assert(next.drop_last() =~= listed.take(j as int));
            assert(next.last() == chosen[j as int]@);
            assert(out@ =~= head + rendered_names(next));
        }
        j = j + 1;
    }
    proof {
        assert(listed.take(j as int) =~= listed);
    }
    out.append(NAMES_CLOSE);
    out.append(EXPORTS);
    assert(out@ =~= rendered_artifact(all, listed));
    out
}

} // verus!
