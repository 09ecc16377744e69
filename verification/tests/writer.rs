use wasm_wrapper_gen::indented_write::{IdentedWriter, WriteExt};

#[test]
fn every_line_is_indented() {
    let mut w = IdentedWriter::new(String::new(), 4);
    w.write_str("a\nb\n");
    assert_eq!(w.into_inner(), "    a\n    b\n");
}

#[test]
fn empty_lines_are_left_empty() {
    let mut w = IdentedWriter::new(String::new(), 2);
    w.write_str("\na\n\nb\n");
    assert_eq!(w.into_inner(), "\n  a\n\n  b\n");
}

#[test]
fn a_line_written_in_pieces_is_indented_once() {
    let mut w = IdentedWriter::new(String::new(), 3);
    w.write_str("let ");
    w.write_str("x");
    w.write_str(" = 1;\n");
    w.write_str("");
    w.write_str("y\n");
    assert_eq!(w.into_inner(), "   let x = 1;\n   y\n");
}

#[test]
fn the_buffer_keeps_what_it_held() {
    let mut w = IdentedWriter::new(String::from("// head\n"), 1);
    w.write_str("x");
    assert_eq!(w.into_inner(), "// head\n x");
}

#[test]
fn no_width_changes_nothing() {
    let mut w = IdentedWriter::new(String::new(), 0);
    w.write_str("a\n\n  b\nc");
    assert_eq!(w.into_inner(), "a\n\n  b\nc");
}

#[test]
fn scopes_add_up() {
    let mut w = IdentedWriter::new(String::new(), 0);
    w.write_str("class A {\n");
    w.indented(4);
    w.write_str("f() {\n");
    w.indented(4);
    w.write_str("return 1;\n");
    w.dedented();
    w.write_str("}\n");
    w.dedented();
    w.write_str("}\n");
    assert_eq!(w.into_inner(), "class A {\n    f() {\n        return 1;\n    }\n}\n");
}

#[test]
fn a_new_scope_starts_at_the_start_of_a_line() {
    let mut w = IdentedWriter::new(String::new(), 0);
    w.write_str("if (x) {");
    w.indented(4);
    w.write_str("y();\n");
    w.dedented();
    w.write_str("}\n");
    assert_eq!(w.into_inner(), "if (x) {    y();\n}\n");
}

#[test]
fn closing_a_scope_gives_the_outer_one_back_as_it_is() {
    let mut w = IdentedWriter::new(String::new(), 2);
    w.write_str("a");
    w.indented(5);
    w.dedented();
    w.write_str("b\nc");
    assert_eq!(w.into_inner(), "  ab\n  c");
}

#[test]
fn closing_without_a_scope_changes_nothing() {
    let mut w = IdentedWriter::new(String::new(), 2);
    w.dedented();
    w.dedented();
    w.write_str("a\nb");
    assert_eq!(w.into_inner(), "a\nb");
}

#[test]
fn an_inner_line_break_primes_every_scope() {
    let mut w = IdentedWriter::new(String::new(), 1);
    w.indented(2);
    w.write_str("a\n");
    w.dedented();
    w.write_str("b\n");
    assert_eq!(w.into_inner(), "   a\n b\n");
}
