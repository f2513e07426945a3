use modrust::instruction::{instruction, InstructionError};
use modrust::prompt::{build_prompt, compose_prompt};
use modrust::source_file::{check_rs_file, validate_rs_file};

const REFACTOR: &str = "Please refactor the following rust code.";
const ADD_TESTS: &str = "Please add appropriate tests to the following rust code.";
const ADD_DOCS: &str = "Please add or update rustdoc comments for the following rust code.";

fn source_after_delimiter(p: &str) -> &str {
    let start = p.find("\n---\n").unwrap() + 5;
    &p[start..p.len() - 1]
}

#[test]
fn valid_codes_resolve_to_their_task_text() {
    assert_eq!(instruction(1), Ok(REFACTOR.to_string()));
    assert_eq!(instruction(2), Ok(ADD_TESTS.to_string()));
    assert_eq!(instruction(3), Ok(ADD_DOCS.to_string()));
}

#[test]
fn every_other_code_is_refused_with_its_value() {
    for n in 0..=255u8 {
        if n < 1 || n > 3 {
            assert_eq!(instruction(n), Err(InstructionError::InvalidInstruction(n)));
        }
    }
}

#[test]
fn codes_zero_and_four_fail_alike_with_their_own_values() {
    assert_eq!(instruction(0), Err(InstructionError::InvalidInstruction(0)));
    assert_eq!(instruction(4), Err(InstructionError::InvalidInstruction(4)));
}

#[test]
fn prompt_follows_the_template() {
    assert_eq!(
        compose_prompt("Do it.", "let x = 1;"),
        "\n- Do it.\n- Target is Rust.\n---\nlet x = 1;\n"
    );
    assert_eq!(compose_prompt("", ""), "\n- \n- Target is Rust.\n---\n\n");
}

#[test]
fn composition_is_repeatable_and_keeps_sources_apart() {
    assert_eq!(compose_prompt(REFACTOR, "a"), compose_prompt(REFACTOR, "a"));
    assert_ne!(compose_prompt(REFACTOR, "a"), compose_prompt(REFACTOR, "b"));
    assert_ne!(compose_prompt(REFACTOR, ""), compose_prompt(REFACTOR, "\n"));
    assert_ne!(build_prompt(1, "x").unwrap(), build_prompt(2, "x").unwrap());
}

#[test]
fn source_comes_back_from_after_the_delimiter() {
    let source = "fn f() {}\n---\n// more\n";
    let p = build_prompt(1, source).unwrap();
    assert_eq!(source_after_delimiter(&p), source);
    let p = build_prompt(3, "").unwrap();
    assert_eq!(source_after_delimiter(&p), "");
}

#[test]
fn refactor_prompt_for_a_small_program() {
    let p = build_prompt(1, "fn main(){}").unwrap();
    let lines: Vec<&str> = p.lines().collect();
    assert!(lines.contains(&"- Please refactor the following rust code."));
    assert!(lines.contains(&"- Target is Rust."));
    assert!(p.ends_with("---\nfn main(){}\n"));
    assert_eq!(source_after_delimiter(&p), "fn main(){}");
}

#[test]
fn tests_prompt_has_its_instruction_line() {
    let p = build_prompt(2, "fn main(){}").unwrap();
    assert_eq!(p.lines().nth(1), Some("- Please add appropriate tests to the following rust code."));
}

#[test]
fn docs_prompt_has_its_instruction_line() {
    let p = build_prompt(3, "fn main(){}").unwrap();
    assert_eq!(
        p.lines().nth(1),
        Some("- Please add or update rustdoc comments for the following rust code.")
    );
}

#[test]
fn unknown_code_fails_before_a_prompt_is_built() {
    assert_eq!(build_prompt(7, "fn main(){}"), Err(InstructionError::InvalidInstruction(7)));
    assert_eq!(build_prompt(0, ""), Err(InstructionError::InvalidInstruction(0)));
    assert_eq!(build_prompt(255, "x"), Err(InstructionError::InvalidInstruction(255)));
}

#[test]
fn error_message_names_the_code() {
    assert_eq!(
        InstructionError::InvalidInstruction(7).message(),
        "invalid instruction number: 7"
    );
    assert_eq!(
        InstructionError::InvalidInstruction(0).message(),
        "invalid instruction number: 0"
    );
    assert_eq!(
        InstructionError::InvalidInstruction(42).message(),
        "invalid instruction number: 42"
    );
    assert_eq!(
        InstructionError::InvalidInstruction(100).message(),
        "invalid instruction number: 100"
    );
    assert_eq!(
        InstructionError::InvalidInstruction(255).message(),
        "invalid instruction number: 255"
    );
}

#[test]
fn rs_file_is_accepted() {
    assert_eq!(validate_rs_file("x.rs", true), Ok("x.rs".to_string()));
    assert_eq!(validate_rs_file("dir/sub/main.rs", true), Ok("dir/sub/main.rs".to_string()));
}

#[test]
fn wrong_extension_is_refused() {
    assert_eq!(validate_rs_file("x.txt", true), Err("Only .rs files are allowed".to_string()));
    assert_eq!(validate_rs_file("x", true), Err("Only .rs files are allowed".to_string()));
    assert_eq!(validate_rs_file("x.rs.bak", true), Err("Only .rs files are allowed".to_string()));
}

#[test]
fn missing_file_is_refused_first() {
    assert_eq!(validate_rs_file("x.rs", false), Err("The file does not exist".to_string()));
    assert_eq!(validate_rs_file("x.txt", false), Err("The file does not exist".to_string()));
}

#[test]
fn check_rs_file_decides_from_its_inputs() {
    assert_eq!(check_rs_file("a.rs", true, Some("rs")), Ok("a.rs".to_string()));
    assert_eq!(check_rs_file("a.rs", false, Some("rs")), Err("The file does not exist".to_string()));
    assert_eq!(check_rs_file("a.txt", true, Some("txt")), Err("Only .rs files are allowed".to_string()));
    assert_eq!(check_rs_file("a", true, None), Err("Only .rs files are allowed".to_string()));
    assert_eq!(check_rs_file("a.RS", true, Some("RS")), Err("Only .rs files are allowed".to_string()));
}
