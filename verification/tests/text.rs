use polaris::settings::DdnsUrl;
use polaris::text::split_text;

fn has_white_space_property(c: char) -> bool {
    matches!(
        c,
        '\u{9}'..='\u{d}'
            | ' '
            | '\u{85}'
            | '\u{a0}'
            | '\u{1680}'
            | '\u{2000}'..='\u{200a}'
            | '\u{2028}'
            | '\u{2029}'
            | '\u{202f}'
            | '\u{205f}'
            | '\u{3000}'
    )
}

#[test]
fn white_space_is_what_is_trimmed() {
    for c in '\0'..=char::MAX {
        assert_eq!(c.to_string().trim().is_empty(), has_white_space_property(c));
        if has_white_space_property(c) {
            assert!(DdnsUrl::read(&c.to_string()).unwrap().is_none());
        }
    }
}

#[test]
fn text_is_cut_at_each_separator() {
    assert_eq!(split_text("", "\u{c}"), vec![""]);
    assert_eq!(split_text("Stratovarius", "\u{c}"), vec!["Stratovarius"]);
    assert_eq!(split_text("a\u{c}b\u{c}", "\u{c}"), vec!["a", "b", ""]);
    assert_eq!(split_text("\u{c}\u{c}", "\u{c}"), vec!["", "", ""]);
    assert_eq!(split_text("aaaaa", "aa"), vec!["", "", "a"]);
    assert_eq!(split_text("søren||Æon||x|y", "||"), vec!["søren", "Æon", "x|y"]);
}

#[test]
fn cutting_agrees_with_the_standard_library() {
    for text in ["", "a", "ab", "aab", "abab", "baab", "abba", "aaaa", "ééaé"] {
        for separator in ["a", "b", "ab", "aa", "aba", "é"] {
            let expected: Vec<String> = text.split(separator).map(str::to_owned).collect();
            assert_eq!(split_text(text, separator), expected);
            assert_eq!(split_text(text, separator).join(separator), text);
        }
    }
}

#[test]
fn joined_names_come_back() {
    let names = vec!["Kamelot", "Avantasia", ""];
    assert_eq!(split_text(&names.join("\u{c}"), "\u{c}"), names);
}
