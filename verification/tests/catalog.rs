use web_sw_cor24_ocaml::demos::{
    capitalize_stem, concat_with_aux, default_demo_index, demos, Demo, DemoCategory,
};

fn find(all: &[Demo], name: &str) -> usize {
    all.iter().position(|d| d.name == name).expect("demo not found")
}

#[test]
fn default_is_hello() {
    let all = demos();
    assert_eq!(all[default_demo_index()].name, "hello");
}

#[test]
fn names_are_unique() {
    let all = demos();
    let mut names: Vec<_> = all.iter().map(|d| d.name).collect();
    names.sort();
    let len = names.len();
    names.dedup();
    assert_eq!(names.len(), len, "duplicate demo names");
}

#[test]
fn minimal_examples_present_and_well_formed() {
    let all = demos();
    let minimals: Vec<_> = all
        .iter()
        .filter(|d| d.category == DemoCategory::Minimal)
        .collect();
    assert_eq!(
        minimals.len(),
        16,
        "expected 16 minimal-category demos, got {}",
        minimals.len()
    );
    for demo in &minimals {
        assert!(
            demo.name.starts_with("canonical-"),
            "minimal demo '{}' should have canonical- prefix",
            demo.name
        );
        assert!(
            !demo.interactive,
            "minimal demo '{}' should be non-interactive",
            demo.name
        );
        assert!(
            demo.auxiliary_files.is_empty(),
            "minimal demo '{}' should not carry auxiliary files",
            demo.name
        );
    }
}

#[test]
fn aux_filenames_are_unique_within_each_demo() {
    for demo in demos() {
        let mut names: Vec<_> = demo.auxiliary_files.iter().map(|a| a.name).collect();
        names.sort();
        let len = names.len();
        names.dedup();
        assert_eq!(
            names.len(),
            len,
            "duplicate aux filenames in demo {}",
            demo.name
        );
    }
}

#[test]
fn capitalize_stem_matches_cli_rule() {
    assert_eq!(capitalize_stem("math.ml"), "Math");
    assert_eq!(capitalize_stem("main.ml"), "Main");
    assert_eq!(capitalize_stem("game_state.ml"), "Game_state");
    assert_eq!(capitalize_stem("a.ml"), "A");
    assert_eq!(capitalize_stem("noext"), "Noext");
    assert_eq!(capitalize_stem(""), "");
}

#[test]
fn full_source_is_passthrough_without_aux() {
    for demo in demos() {
        if demo.auxiliary_files.is_empty() {
            assert_eq!(
                demo.full_source(),
                demo.source,
                "full_source diverges from source for single-file demo {}",
                demo.name
            );
        }
    }
}

#[test]
fn full_source_injects_module_directives_with_aux() {
    let all = demos();
    let demo = all
        .iter()
        .find(|d| d.name == "modules-multifile")
        .expect("modules-multifile demo not found");
    let full = demo.full_source();
    assert!(
        full.starts_with("let __module = \"Math\"\n"),
        "missing leading Math directive: {full:?}"
    );
    assert!(
        full.contains("\nlet __module = \"Main\"\n"),
        "missing Main directive between aux and main: {full:?}"
    );
    assert!(full.contains("let add x y = x + y"), "aux body missing");
    assert!(full.contains("Math.add 2 3"), "main body missing");
}

#[test]
fn demos_are_alphabetised() {
    let all = demos();
    let names: Vec<_> = all.iter().map(|d| d.name).collect();
    let mut sorted = names.clone();
    sorted.sort();
    assert_eq!(
        names, sorted,
        "DEMOS must stay alphabetised so the UI dropdown is alphabetised"
    );
}

#[test]
fn interactive_demos_exist() {
    let all = demos();
    let interactive: Vec<_> = all
        .iter()
        .filter(|d| d.interactive)
        .map(|d| d.name)
        .collect();
    assert!(
        !interactive.is_empty(),
        "at least one demo must be interactive"
    );
    assert!(
        interactive.contains(&"echo-loop"),
        "echo-loop must be interactive"
    );
    assert!(
        interactive.contains(&"repl-session"),
        "repl-session must be interactive"
    );
    assert!(
        interactive.contains(&"text-adventure"),
        "text-adventure must be interactive"
    );
}

#[test]
fn catalog_has_fifty_two_demos() {
    assert_eq!(demos().len(), 52);
}

#[test]
fn capitalize_stem_uses_full_unicode_mapping() {
    assert_eq!(capitalize_stem("émile.ml"), "Émile");
    assert_eq!(capitalize_stem("ßx.ml"), "SSx");
    assert_eq!(capitalize_stem("Zed.ml"), "Zed");
    assert_eq!(capitalize_stem("1st.ml"), "1st");
    assert_eq!(capitalize_stem(".ml"), "");
    assert_eq!(capitalize_stem("ml"), "Ml");
    assert_eq!(capitalize_stem("x.mli"), "X.mli");
}

#[test]
fn concat_with_aux_exact_text() {
    let joined = concat_with_aux(&[("math.ml", "let add x y = x + y")], "print_int (Math.add 2 3)");
    assert_eq!(
        joined,
        "let __module = \"Math\"\nlet add x y = x + y\nlet __module = \"Main\"\nprint_int (Math.add 2 3)"
    );
    let two = concat_with_aux(&[("a.ml", "1\n"), ("b_c.ml", "2")], "3\n");
    assert_eq!(
        two,
        "let __module = \"A\"\n1\nlet __module = \"B_c\"\n2\nlet __module = \"Main\"\n3\n"
    );
}

#[test]
fn concat_with_aux_without_aux_is_main() {
    assert_eq!(concat_with_aux(&[], "print_int 1"), "print_int 1");
    assert_eq!(concat_with_aux(&[], ""), "");
}

#[test]
fn concat_main_uses_edited_source() {
    let all = demos();
    let demo = &all[find(&all, "modules-multifile")];
    let joined = demo.concat_main("print_int 7\n");
    assert!(joined.starts_with("let __module = \"Math\"\n"));
    assert!(joined.ends_with("let __module = \"Main\"\nprint_int 7\n"));
    let hello = &all[find(&all, "hello")];
    assert_eq!(hello.concat_main("edited"), "edited");
}
