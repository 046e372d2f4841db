use chess_perft::emit::{render, render_entry, render_name};
use chess_perft::model::GeneratedEntry;

fn entry(name: &str, fen: &str, depth: &str, expected: &str, function_name: &str) -> GeneratedEntry {
    GeneratedEntry {
        name: name.to_string(),
        fen: fen.to_string(),
        depth: depth.to_string(),
        expected: expected.to_string(),
        function_name: function_name.to_string(),
        included: true,
    }
}

#[test]
fn the_callable_of_an_entry_calls_its_backend_with_its_literals() {
    let e = entry("perft_03_acme", "8/8/1k6/2b5/2pP4/8/5K2/8 b - d3 0 1", "6", "1440467", "acme");
    let mut out = String::new();
    render_entry(&e, &mut out);
    let expected = concat_lines(&[
        "\t\t#[allow(dead_code)]",
        "        fn perft_03_acme(bench: &mut Bencher) {",
        "            acme(",
        "                bench,",
        "                \"8/8/1k6/2b5/2pP4/8/5K2/8 b - d3 0 1\".to_string(),",
        "                6,",
        "                1440467,",
        "            )",
        "        }",
    ]);
    assert_eq!(out, expected);
}

fn concat_lines(lines: &[&str]) -> String {
    let mut out = String::new();
    for line in lines {
        out.push_str(line);
        out.push('\n');
    }
    out
}

#[test]
fn render_entry_appends_to_what_is_there() {
    let e = entry("n", "f", "d", "x", "g");
    let mut out = "before".to_string();
    render_entry(&e, &mut out);
    assert_eq!(
        out,
        "before\t\t#[allow(dead_code)]\n        fn n(bench: &mut Bencher) {\n            g(\n                bench,\n                \"f\".to_string(),\n                d,\n                x,\n            )\n        }\n"
    );
}

#[test]
fn a_name_line_is_the_name_between_tabs_and_a_comma() {
    let e = entry("perft_03_acme", "f", "6", "1", "acme");
    let mut out = "x".to_string();
    render_name(&e, &mut out);
    assert_eq!(out, "x\t\t\tperft_03_acme,\n");
}

#[test]
fn the_artifact_of_nothing_is_two_empty_macros_and_the_exports() {
    let text = render(&Vec::new(), &Vec::new());
    let expected = concat_lines(&[
        "macro_rules! gen_perft_inputs_internal {",
        "\t() => {",
        "\t}",
        "}",
        "macro_rules! get_names_internal {",
        "\t($group_name:tt) => {",
        "\t\tbenchmark_group!(",
        "\t\t\t$group_name,",
        "\t\t);",
        "\t}",
        "}",
        "",
        "",
        "pub(crate) use gen_perft_inputs_internal;",
    ]) + "pub(crate) use get_names_internal;";
    assert_eq!(text, expected);
}

#[test]
fn the_artifact_defines_every_entry_and_lists_the_chosen_ones() {
    let first = entry("perft_1_a", "fen one", "1", "20", "run_a");
    let second = entry("perft_1_b", "fen one", "1", "20", "run_b");
    let text = render(&vec![first.clone(), second.clone()], &vec![second.clone()]);
    let expected = concat_lines(&[
        "macro_rules! gen_perft_inputs_internal {",
        "\t() => {",
        "\t\t#[allow(dead_code)]",
        "        fn perft_1_a(bench: &mut Bencher) {",
        "            run_a(",
        "                bench,",
        "                \"fen one\".to_string(),",
        "                1,",
        "                20,",
        "            )",
        "        }",
        "\t\t#[allow(dead_code)]",
        "        fn perft_1_b(bench: &mut Bencher) {",
        "            run_b(",
        "                bench,",
        "                \"fen one\".to_string(),",
        "                1,",
        "                20,",
        "            )",
        "        }",
        "\t}",
        "}",
        "macro_rules! get_names_internal {",
        "\t($group_name:tt) => {",
        "\t\tbenchmark_group!(",
        "\t\t\t$group_name,",
        "\t\t\tperft_1_b,",
        "\t\t);",
        "\t}",
        "}",
        "",
        "",
        "pub(crate) use gen_perft_inputs_internal;",
    ]) + "pub(crate) use get_names_internal;";
    assert_eq!(text, expected);
}

#[test]
fn the_list_follows_the_order_it_is_given() {
    let a = entry("a", "f", "1", "1", "g");
    let b = entry("b", "f", "1", "1", "g");
    let text = render(&vec![a.clone(), b.clone()], &vec![b, a]);
    let at_b = text.find("\t\t\tb,\n").unwrap();
    let at_a = text.find("\t\t\ta,\n").unwrap();
    assert!(at_b < at_a);
}
