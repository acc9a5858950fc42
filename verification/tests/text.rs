use git_flow_tui::shell::{command_result, trimmed, ShellError, ShellResult};
use git_flow_tui::text::{
    after_last_chars, chars_of, decimal_of, is_whitespace, lines_of, replace_chars,
    split_once_chars, string_of, trim_chars, trim_start_char_chars,
};

fn s(v: &[char]) -> String {
    v.iter().collect()
}

fn lines(text: &str) -> Vec<String> {
    lines_of(&chars_of(text)).iter().map(|l| s(l)).collect()
}

#[test]
fn whitespace_agrees_with_std() {
    for u in 0u32..=0x10ffff {
        if let Some(c) = char::from_u32(u) {
            assert_eq!(is_whitespace(c), c.is_whitespace(), "code point {:x}", u);
        }
    }
}

#[test]
fn lines_agree_with_std() {
    let samples = [
        "", "a", "a\n", "a\nb", "a\r\nb\r\n", "a\r", "\n", "\n\n", "a\n\nb", "x\ry\n", "  * main\n  develop",
    ];
    for text in samples {
        let expected: Vec<String> = text.lines().map(|l| l.to_string()).collect();
        assert_eq!(lines(text), expected, "lines of {:?}", text);
    }
}

#[test]
fn trim_agrees_with_std() {
    let samples = ["", "   ", " a ", "\t\nfeature/x\r\n", "a b", "\u{3000}x\u{a0}", "* main"];
    for text in samples {
        assert_eq!(s(&trim_chars(&chars_of(text))), text.trim(), "trim of {:?}", text);
        assert_eq!(trimmed(text), text.trim());
    }
}

#[test]
fn trim_start_char_agrees_with_std() {
    for text in ["", "*", "**a*", "a*", " *a"] {
        assert_eq!(s(&trim_start_char_chars(&chars_of(text), '*')), text.trim_start_matches('*'));
    }
}

#[test]
fn replace_agrees_with_std() {
    let cases = [
        ("* main", "* ", ""),
        ("a* b* c", "* ", "-"),
        ("origin/feature/origin/x", "origin/", ""),
        ("aaa", "aa", "b"),
        ("no match", "zz", "y"),
        ("*", "* ", ""),
    ];
    for (text, pat, rep) in cases {
        assert_eq!(
            s(&replace_chars(&chars_of(text), &chars_of(pat), &chars_of(rep))),
            text.replace(pat, rep),
            "replace {:?} in {:?}",
            pat,
            text
        );
    }
}

#[test]
fn split_once_agrees_with_std() {
    for text in ["feature/x", "feature/x/y", "/x", "x/", "none"] {
        let got = split_once_chars(&chars_of(text), '/').map(|(a, b)| (s(&a), s(&b)));
        let expected = text.split_once('/').map(|(a, b)| (a.to_string(), b.to_string()));
        assert_eq!(got, expected, "split_once of {:?}", text);
    }
}

#[test]
fn after_last_is_first_rsplit_piece() {
    for text in ["refs/remotes/origin/main", "main", "", "a/", "/b"] {
        assert_eq!(
            s(&after_last_chars(&chars_of(text), '/')),
            text.rsplit('/').next().unwrap(),
            "after last / of {:?}",
            text
        );
    }
}

#[test]
fn decimal_agrees_with_display() {
    for n in [0i64, 7, 10, 42, -1, -128, 2147483647, -2147483648, i64::MAX, i64::MIN] {
        assert_eq!(decimal_of(n), format!("{}", n));
    }
}

#[test]
fn string_of_chars_round_trip() {
    assert_eq!(string_of(&chars_of("héllo/wörld")), "héllo/wörld");
}

#[test]
fn command_result_trims_and_checks() {
    match command_result(Some(0), "  out \n", "\n err ", true) {
        Ok(ShellResult { status, stdout, stderr }) => {
            assert_eq!(status, 0);
            assert_eq!(stdout, "out");
            assert_eq!(stderr, "err");
        }
        Err(e) => panic!("unexpected {:?}", e),
    }
    assert_eq!(
        command_result(Some(128), "", " fatal: no\n", true),
        Err(ShellError::BadExitStatus(128, "fatal: no".to_string()))
    );
    assert_eq!(
        command_result(Some(1), "x", "y", false),
        Ok(ShellResult { status: 1, stdout: "x".to_string(), stderr: "y".to_string() })
    );
    assert_eq!(command_result(None, "", "", true), Err(ShellError::UnexpectedExecutionEnd()));
}

#[test]
fn shell_error_messages() {
    assert_eq!(ShellError::Io("denied".to_string()).message(), "IO error: denied");
    assert_eq!(
        ShellError::BadExitStatus(-3, "bad".to_string()).message(),
        "Program finished with status -3. Error output:\n  bad"
    );
    assert_eq!(ShellError::UnexpectedExecutionEnd().message(), "Unexpected execution end");
}
