use web_sw_cor24_ocaml::transcript::{clean_output, strip_prompt_echoes};

#[test]
fn strip_prompt_echoes_one_shot() {
    let raw = "PVM OK\r\n> print_int 42\r\n42";
    let cleaned = strip_prompt_echoes(raw);
    assert!(
        !cleaned.contains("print_int"),
        "echo not stripped: {cleaned:?}"
    );
    assert!(cleaned.contains("42"), "result missing: {cleaned:?}");
}

#[test]
fn strip_prompt_echoes_multi_line() {
    let raw = "PVM OK\r\n> 42\r\n42\r\n> let x = 1 + 1 in x\r\n2\r\n";
    let cleaned = strip_prompt_echoes(raw);
    assert!(!cleaned.contains("> 42"), "echo line not stripped");
    assert!(!cleaned.contains("let x"), "second echo not stripped");
    assert!(cleaned.contains("42"), "first result missing");
    assert!(cleaned.contains("2"), "second result missing");
}

#[test]
fn strip_prompt_echoes_exact_values() {
    assert_eq!(strip_prompt_echoes("PVM OK\r\n> print_int 42\r\n42"), "PVM OK\r\n42");
    assert_eq!(
        strip_prompt_echoes("PVM OK\r\n> 42\r\n42\r\n> let x = 1 + 1 in x\r\n2\r\n"),
        "PVM OK\r\n42\r\n2\r\n"
    );
    assert_eq!(strip_prompt_echoes(""), "");
    assert_eq!(strip_prompt_echoes("> "), "");
    assert_eq!(strip_prompt_echoes(">"), ">");
    assert_eq!(strip_prompt_echoes("a > b\n"), "a > b\n");
    assert_eq!(strip_prompt_echoes("> unterminated echo"), "");
}

#[test]
fn strip_prompt_echoes_keeps_non_ascii_text() {
    assert_eq!(strip_prompt_echoes("é"), "é");
    assert_eq!(strip_prompt_echoes("café\n"), "café\n");
    assert_eq!(strip_prompt_echoes("> ça\nrésultat → 1\n"), "résultat → 1\n");
    assert_eq!(clean_output("PVM OK\n> print_endline \"naïve\"\nnaïve\n"), "naïve");
}

#[test]
fn strip_prompt_echoes_is_idempotent() {
    for raw in ["PVM OK\r\n> 42\r\n42\r\n> x\n> y\n", ">\n> \n>> a\n", "a\n> b", "> "] {
        let once = strip_prompt_echoes(raw);
        assert_eq!(strip_prompt_echoes(&once), once);
    }
}

#[test]
fn clean_output_keeps_only_program_output() {
    assert_eq!(clean_output("PVM OK\r\n> print_int 42\r\n42"), "42");
    assert_eq!(
        clean_output("PVM OK\r\n> 42\r\n42\r\n> let x = 1 + 1 in x\r\n2\r\n"),
        "42\n2"
    );
    assert_eq!(clean_output("PVM OK\n\n  \nHALT\n"), "");
    assert_eq!(clean_output(""), "");
}

#[test]
fn clean_output_keeps_inner_spaces_and_drops_crs() {
    assert_eq!(clean_output("  indented  \r\r\nnext"), "  indented  \nnext");
    assert_eq!(clean_output(" HALT \nPVM OKAY"), "PVM OKAY");
}
