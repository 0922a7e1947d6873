use offset_builder::hex::append_hex_digits;
use offset_builder::{CppFileBuilder, FileBuilder};

fn variable(value: usize, comment: Option<&str>, indentation: Option<usize>) -> String {
    let mut b = CppFileBuilder;
    let mut out = String::new();
    b.write_variable(&mut out, "Offset", value, comment, indentation);
    out
}

#[test]
fn extension_is_hpp() {
    let mut b = CppFileBuilder;
    assert_eq!(b.extension(), "hpp");
}

#[test]
fn extension_unchanged_by_writes() {
    let mut b = CppFileBuilder;
    let mut out = String::new();
    b.write_top_level(&mut out);
    b.write_namespace(&mut out, "A", Some("x"));
    b.write_variable(&mut out, "V", 1, None, None);
    b.write_closure(&mut out, true);
    assert_eq!(b.extension(), "hpp");
    assert_eq!(b, CppFileBuilder);
}

#[test]
fn top_level_preamble() {
    let mut b = CppFileBuilder;
    let mut out = String::new();
    b.write_top_level(&mut out);
    assert_eq!(out, "#pragma once\n\n#include <cstddef>\n\n");
}

#[test]
fn top_level_twice_duplicates() {
    let mut b = CppFileBuilder;
    let mut out = String::new();
    b.write_top_level(&mut out);
    b.write_top_level(&mut out);
    assert_eq!(
        out,
        "#pragma once\n\n#include <cstddef>\n\n#pragma once\n\n#include <cstddef>\n\n"
    );
}

#[test]
fn namespace_without_comment() {
    let mut b = CppFileBuilder;
    let mut out = String::new();
    b.write_namespace(&mut out, "Player", None);
    assert_eq!(out, "namespace Player {\n");
    assert!(!out.contains("//"));
}

#[test]
fn namespace_with_comment() {
    let mut b = CppFileBuilder;
    let mut out = String::new();
    b.write_namespace(&mut out, "Player", Some("the local player"));
    assert_eq!(out, "namespace Player { // the local player\n");
    assert_eq!(out.matches("//").count(), 1);
}

#[test]
fn namespace_appends_to_existing_output() {
    let mut b = CppFileBuilder;
    let mut out = String::from("prior\n");
    b.write_namespace(&mut out, "N", None);
    assert_eq!(out, "prior\nnamespace N {\n");
}

#[test]
fn variable_default_indentation() {
    assert_eq!(variable(16, None, None), "    constexpr std::ptrdiff_t Offset = 0x10;\n");
}

#[test]
fn variable_zero_indentation_and_comment() {
    assert_eq!(
        variable(0xABCDEF, Some("three bytes"), Some(0)),
        "constexpr std::ptrdiff_t Offset = 0xABCDEF; // three bytes\n"
    );
}

#[test]
fn variable_wide_indentation() {
    assert_eq!(variable(1, None, Some(8)), "        constexpr std::ptrdiff_t Offset = 0x1;\n");
}

#[test]
fn variable_zero_value() {
    assert_eq!(variable(0, None, Some(2)), "  constexpr std::ptrdiff_t Offset = 0x0;\n");
}

#[test]
fn variable_largest_value() {
    let expected = format!("  constexpr std::ptrdiff_t Offset = {:#X};\n", usize::MAX);
    assert_eq!(variable(usize::MAX, None, Some(2)), expected);
}

#[test]
fn hex_digits_uppercase_and_round_trip() {
    let values: [usize; 8] = [0, 9, 10, 15, 16, 255, 0x1234_5678, usize::MAX];
    for v in values {
        let mut out = String::new();
        append_hex_digits(&mut out, v);
        assert_eq!(out, format!("{:X}", v));
        assert!(out.chars().all(|c| c.is_ascii_digit() || ('A'..='F').contains(&c)));
        assert_eq!(usize::from_str_radix(&out, 16).unwrap(), v);
    }
}

#[test]
fn literal_round_trip_through_declaration() {
    let text = variable(0xDEAD_BEEF, None, Some(0));
    let literal = text
        .trim_start_matches("constexpr std::ptrdiff_t Offset = ")
        .trim_end_matches(";\n");
    assert_eq!(literal, "0xDEADBEEF");
    assert_eq!(usize::from_str_radix(&literal[2..], 16).unwrap(), 0xDEAD_BEEF);
}

#[test]
fn closure_last_has_no_trailing_newline() {
    let mut b = CppFileBuilder;
    let mut out = String::new();
    b.write_closure(&mut out, true);
    assert_eq!(out, "}");
    assert!(!out.ends_with('\n'));
}

#[test]
fn closure_intermediate_ends_with_one_blank_line() {
    let mut b = CppFileBuilder;
    let mut out = String::new();
    b.write_closure(&mut out, false);
    assert_eq!(out, "}\n\n");
}

#[test]
fn single_namespace_scenario() {
    let mut b = CppFileBuilder;
    let mut out = String::new();
    b.write_top_level(&mut out);
    b.write_namespace(&mut out, "Player", None);
    b.write_variable(&mut out, "Health", 16, Some("current HP"), Some(2));
    b.write_closure(&mut out, false);
    assert_eq!(
        out,
        "#pragma once\n\n#include <cstddef>\n\nnamespace Player {\n  constexpr std::ptrdiff_t Health = 0x10; // current HP\n}\n\n"
    );
}

#[test]
fn two_sibling_namespaces_scenario() {
    let mut b = CppFileBuilder;
    let mut out = String::new();
    b.write_top_level(&mut out);
    b.write_namespace(&mut out, "A", None);
    b.write_variable(&mut out, "X", 1, None, None);
    b.write_closure(&mut out, false);
    b.write_namespace(&mut out, "B", None);
    b.write_variable(&mut out, "Y", 2, None, None);
    b.write_closure(&mut out, true);
    assert_eq!(
        out,
        "#pragma once\n\n#include <cstddef>\n\nnamespace A {\n    constexpr std::ptrdiff_t X = 0x1;\n}\n\nnamespace B {\n    constexpr std::ptrdiff_t Y = 0x2;\n}"
    );
    assert!(out.contains("}\n\nnamespace B {"));
    assert!(!out.contains("}\n\n\nnamespace B {"));
    assert!(!out.ends_with('\n'));
}

#[test]
fn nested_namespaces() {
    let mut b = CppFileBuilder;
    let mut out = String::new();
    b.write_namespace(&mut out, "Outer", Some("outer scope"));
    b.write_namespace(&mut out, "Inner", None);
    b.write_variable(&mut out, "Z", 0x20, None, Some(8));
    b.write_closure(&mut out, false);
    b.write_closure(&mut out, true);
    assert_eq!(
        out,
        "namespace Outer { // outer scope\nnamespace Inner {\n        constexpr std::ptrdiff_t Z = 0x20;\n}\n\n}"
    );
}
