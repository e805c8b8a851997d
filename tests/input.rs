use mktex::input::{input_paths, next_expansion, substitute_inputs, ExpansionStep};

#[test]
fn paths_found_in_order() {
    let text = "a\n\\input{jakewilliami/tex-macros/class/x.tex}\nb \\input{y.tex} c";
    assert_eq!(input_paths(text), vec!["class/x.tex".to_string(), "y.tex".to_string()]);
}

#[test]
fn paths_need_a_name_and_a_closing_brace_on_the_line() {
    assert!(input_paths("\\input{}").is_empty());
    assert!(input_paths("\\input{a\n}").is_empty());
    assert!(input_paths("\\inputs{a}").is_empty());
    assert!(input_paths("").is_empty());
}

#[test]
fn nested_file_inlined_at_directive() {
    let text = "before\n\\input{jakewilliami/tex-macros/class/sub.tex}\nafter";
    let out = substitute_inputs(text, &vec!["NESTED".to_string()]);
    assert_eq!(out, "before\nNESTED\nafter");
    assert!(!out.contains("\\input{"));
    assert!(input_paths(&out).is_empty());
}

#[test]
fn two_levels_expand_to_no_directive() {
    let top = "A \\input{mid.tex} Z";
    let mid = "m1 \\input{leaf.tex} m2";
    let leaf = "LEAF";
    let mut text = top.to_string();
    while let ExpansionStep::Fetch(paths) = next_expansion(&text) {
        let fetched: Vec<String> = paths
            .iter()
            .map(|p| if p == "mid.tex" { mid.to_string() } else { leaf.to_string() })
            .collect();
        text = substitute_inputs(&text, &fetched);
    }
    assert_eq!(text, "A m1 LEAF m2 Z");
}

#[test]
fn directive_without_replacement_is_kept() {
    let text = "\\input{a} and \\input{b}";
    assert_eq!(substitute_inputs(text, &vec!["A".to_string()]), "A and \\input{b}");
    assert_eq!(substitute_inputs("no directives", &vec![]), "no directives");
}

#[test]
fn expansion_step_done_only_without_directives() {
    assert!(matches!(next_expansion("plain \\input{} text"), ExpansionStep::Done));
    match next_expansion("x \\input{a.tex} \\input{b.tex}") {
        ExpansionStep::Fetch(p) => assert_eq!(p, vec!["a.tex".to_string(), "b.tex".to_string()]),
        ExpansionStep::Done => panic!("directives were left"),
    }
}
