use tealr_doc_gen::text::{
    chars_of, concat_str, decimal_string, find_char, has_suffix, replace_char, same_str, str_less,
    string_of, trimmed_length,
};

#[test]
fn texts_are_ordered_as_strings_are() {
    let texts = ["", "a", "A", "ab", "abc", "b", "é", "z", "Z", "a\u{10000}", "a\u{ffff}", "日本"];
    for a in texts {
        for b in texts {
            assert_eq!(str_less(a, b), a < b, "{:?} before {:?}", a, b);
        }
    }
}

#[test]
fn numbers_are_written_in_decimal() {
    assert_eq!(decimal_string(0), "0");
    assert_eq!(decimal_string(7), "7");
    assert_eq!(decimal_string(10), "10");
    assert_eq!(decimal_string(1234567890), "1234567890");
    assert_eq!(decimal_string(usize::MAX), usize::MAX.to_string());
}

#[test]
fn every_occurrence_of_a_char_is_replaced() {
    assert_eq!(replace_char("a\nb\n\nc", '\n', "<br>"), "a<br>b<br><br>c");
    assert_eq!(replace_char("", '\n', "<br>"), "");
    assert_eq!(replace_char("abc", 'x', "y"), "abc");
    assert_eq!(replace_char("aXa", 'X', ""), "aa");
}

#[test]
fn texts_are_taken_apart_and_put_together() {
    let chars = chars_of("héllo");
    assert_eq!(chars, vec!['h', 'é', 'l', 'l', 'o']);
    assert_eq!(string_of(&chars, 1, 4), "éll");
    assert_eq!(string_of(&chars, 2, 2), "");
    assert_eq!(concat_str("ab", "cd"), "abcd");
    assert!(same_str("héllo", "héllo"));
    assert!(!same_str("hello", "héllo"));
}

#[test]
fn a_char_is_found_where_it_stands_first() {
    assert_eq!(find_char(&chars_of("a#b#c"), '#'), 1);
    assert_eq!(find_char(&chars_of("#"), '#'), 0);
    assert_eq!(find_char(&chars_of("abc"), '#'), 3);
    assert_eq!(find_char(&chars_of(""), '#'), 0);
}

#[test]
fn white_space_at_the_end_is_not_counted() {
    assert_eq!(trimmed_length(&chars_of("ab  \t\n"), 6), 2);
    assert_eq!(trimmed_length(&chars_of("ab  cd"), 4), 2);
    assert_eq!(trimmed_length(&chars_of("ab  cd"), 6), 6);
    assert_eq!(trimmed_length(&chars_of("   "), 3), 0);
    assert_eq!(trimmed_length(&chars_of("a\u{00a0}\u{3000}"), 3), 1);
}

#[test]
fn a_suffix_stands_at_the_end() {
    assert!(has_suffix(&chars_of("any..."), &chars_of("...")));
    assert!(has_suffix(&chars_of("..."), &chars_of("...")));
    assert!(has_suffix(&chars_of("abc"), &chars_of("")));
    assert!(!has_suffix(&chars_of(".."), &chars_of("...")));
    assert!(!has_suffix(&chars_of("...a"), &chars_of("...")));
}

use tealr_doc_gen::compile_teal::{compile_script, escape_for_lua};

#[test]
fn code_is_escaped_for_a_lua_string() {
    assert_eq!(escape_for_lua("print(1)"), "print(1)");
    assert_eq!(escape_for_lua("a\\b"), "a\\\\b");
    assert_eq!(escape_for_lua("say \"hi\""), "say \\\"hi\\\"");
    assert_eq!(escape_for_lua("it's"), "it\\'s");
    assert_eq!(escape_for_lua("a\nb"), "a\\nb");
    assert_eq!(escape_for_lua("\\n\n\"'"), "\\\\n\\n\\\"\\'");
}

#[test]
fn the_script_hands_the_code_to_the_compiler() {
    let script = compile_script("local a: number = 1\nprint('a')");
    assert!(script.starts_with("\nlocal tl = require('tl')\n"));
    assert!(script.contains("tl.gen('local a: number = 1\\nprint(\\'a\\')', env)\n"));
    assert!(script.contains(" .. '\\n'\nend\nlocal syntax_errors = {}\n"));
    assert!(script.ends_with("\nreturn { output, syntax_errors, type_errors }\n"));
}
