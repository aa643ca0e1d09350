use mail_desk::commands::{analyze_email, greet};

#[test]
fn greet_ada() {
    assert_eq!(greet("Ada"), "Hello, Ada! You've been greeted from Rust!");
}

#[test]
fn greet_empty_name() {
    assert_eq!(greet(""), "Hello, ! You've been greeted from Rust!");
}

#[test]
fn greet_begins_and_ends_the_same_for_every_name() {
    for name in ["Ada", "", "Grace Hopper", "  ", "名前", "a\nb", "{}", "Hello, "] {
        let out = greet(name);
        assert!(out.starts_with("Hello, "), "{:?}", out);
        assert!(out.ends_with("! You've been greeted from Rust!"), "{:?}", out);
    }
}

#[test]
fn greet_keeps_the_name_verbatim() {
    for name in ["Ada", "  padded  ", "UPPER lower", "Zoë 🦀", "tab\there", "{name}", "%s"] {
        let out = greet(name);
        let start = "Hello, ".len();
        assert_eq!(&out[start..start + name.len()], name);
        assert_eq!(out.len(), start + name.len() + "! You've been greeted from Rust!".len());
    }
}

#[test]
fn greet_does_not_read_the_name_as_a_pattern() {
    assert_eq!(greet("{}"), "Hello, {}! You've been greeted from Rust!");
    assert_eq!(greet("{0:?}"), "Hello, {0:?}! You've been greeted from Rust!");
}

#[test]
fn analyze_email_subject_test() {
    assert_eq!(
        analyze_email("subject: test".to_string()),
        Ok("Analysis complete for: subject: test".to_string())
    );
}

#[test]
fn analyze_email_empty_data() {
    assert_eq!(analyze_email(String::new()), Ok("Analysis complete for: ".to_string()));
}

#[test]
fn analyze_email_always_succeeds() {
    let inputs = [
        "",
        "subject: test",
        "From: a@example.org\r\nTo: b@example.org\r\n\r\nbody",
        "not an e-mail at all",
        "\u{0}\u{1}\u{7f}",
        "Ünïcödé ✉",
    ];
    for data in inputs {
        let result = analyze_email(data.to_string());
        assert!(result.is_ok(), "{:?}", result);
        assert_eq!(result.unwrap(), format!("Analysis complete for: {}", data));
    }
}

#[test]
fn analyze_email_keeps_long_data_whole() {
    let data = "x".repeat(100_000);
    let report = analyze_email(data.clone()).unwrap();
    assert_eq!(report.len(), "Analysis complete for: ".len() + data.len());
    assert!(report.starts_with("Analysis complete for: "));
    assert!(report.ends_with(data.as_str()));
}
