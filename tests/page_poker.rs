use iced_tutorial::page_poker::{
    chars_of, find_chars, full_url, size_report, title_report, Command, Message, Mode, PagePoker,
};

#[test]
fn full_url_adds_scheme() {
    assert_eq!(full_url("example.com", true), "https://example.com");
    assert_eq!(full_url("example.com", false), "http://example.com");
    assert_eq!(full_url("http://a.org", true), "http://a.org");
    assert_eq!(full_url("https://a.org", false), "https://a.org");
    assert_eq!(full_url("httpx://a.org", false), "http://httpx://a.org");
}

#[test]
fn title_is_trimmed() {
    let body = "<html><head><title>  Hello World \n</title></head></html>";
    assert_eq!(title_report(body), "Title: Hello World");
}

#[test]
fn missing_or_misordered_title() {
    assert_eq!(title_report("<html>no title</html>"), "No <title> found");
    assert_eq!(title_report("<title>open only"), "No <title> found");
    assert_eq!(title_report("</title> then <title>x"), "No <title> found");
    assert_eq!(title_report("<title></title>"), "Title: ");
}

#[test]
fn title_with_wide_characters() {
    assert_eq!(title_report("é<title>Ünïcödé</title>"), "Title: Ünïcödé");
}

#[test]
fn size_report_uses_decimal_units() {
    assert_eq!(size_report(0), "Size: 0 B");
    assert_eq!(size_report(1500), "Size: 1.50 kB");
    assert_eq!(size_report(1_000_000), "Size: 1 MB");
}

#[test]
fn find_chars_finds_first() {
    let h = chars_of("abcabc");
    assert_eq!(find_chars(&h, &chars_of("bc")), Some(1));
    assert_eq!(find_chars(&h, &chars_of("cd")), None);
    assert_eq!(find_chars(&h, &chars_of("")), Some(0));
    assert_eq!(find_chars(&chars_of("ab"), &chars_of("abc")), None);
}

#[test]
fn empty_url_reports_error() {
    let mut p = PagePoker::new();
    assert!(matches!(p.update(Message::Action), Command::Nothing));
    assert_eq!(p.result(), "Please enter a URL");
    assert_eq!(p.message_log().len(), 1);
    assert_eq!(p.message_log()[0], "Action");
}

#[test]
fn action_hands_fetch_to_host() {
    let mut p = PagePoker::new();
    let _ = p.update(Message::UrlChanged("a\"b".to_string()));
    let _ = p.update(Message::SecureChanged(true));
    let _ = p.update(Message::ModeChanged(Mode::DownloadSize));
    match p.update(Message::Action) {
        Command::Fetch { url, secure, mode } => {
            assert_eq!(url, "a\"b");
            assert!(secure);
            assert_eq!(mode, Mode::DownloadSize);
        }
        Command::Nothing => panic!("expected a fetch"),
    }
    assert!(p.is_loading());
    assert_eq!(p.result(), "");
    let _ = p.update(Message::Result("Size: 1 kB".to_string()));
    assert!(!p.is_loading());
    assert_eq!(p.result(), "Size: 1 kB");
    let log: Vec<&str> = p.message_log().iter().map(|s| s.as_str()).collect();
    assert_eq!(
        log,
        vec![
            "UrlChanged(\"a\\\"b\")",
            "SecureChanged(true)",
            "ModeChanged(Download Size)",
            "Action",
            "Result(\"Size: 1 kB\")",
        ]
    );
}

#[test]
fn modes_and_labels() {
    let all = Mode::all();
    assert_eq!(all, vec![Mode::Title, Mode::DownloadTime, Mode::DownloadSize]);
    assert_eq!(Mode::DownloadTime.label(), "Download Time");
    assert_eq!(Mode::Title.label(), "Title");
}
