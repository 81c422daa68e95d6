use scissors_console::events::{dispatch_event, process, Client, Dispatch};

#[test]
fn lines_are_split_at_line_feeds() {
    assert_eq!(process("one\ntwo\nthree"), vec!["one", "two", "three"]);
}

#[test]
fn a_final_line_feed_adds_no_line() {
    assert_eq!(process("one\ntwo\n"), vec!["one", "two"]);
    assert_eq!(process("one\n"), vec!["one"]);
}

#[test]
fn empty_text_has_no_lines() {
    assert_eq!(process(""), Vec::<&str>::new());
}

#[test]
fn a_lone_line_feed_is_one_empty_line() {
    assert_eq!(process("\n"), vec![""]);
    assert_eq!(process("\n\n"), vec!["", ""]);
}

#[test]
fn empty_lines_in_the_middle_are_kept() {
    assert_eq!(process("a\n\nb"), vec!["a", "", "b"]);
}

#[test]
fn carriage_return_before_line_feed_is_dropped() {
    assert_eq!(process("a\r\nb\r\n"), vec!["a", "b"]);
    assert_eq!(process("\r\n"), vec![""]);
}

#[test]
fn only_one_carriage_return_is_dropped() {
    assert_eq!(process("a\r\r\nb"), vec!["a\r", "b"]);
}

#[test]
fn carriage_return_elsewhere_is_kept() {
    assert_eq!(process("a\rb\nc"), vec!["a\rb", "c"]);
    assert_eq!(process("tail\r"), vec!["tail\r"]);
}

#[test]
fn text_without_line_feed_is_one_line() {
    assert_eq!(process("{\"StartPressed\":\"run1\"}"), vec!["{\"StartPressed\":\"run1\"}"]);
}

#[test]
fn characters_of_several_bytes_pass_through() {
    assert_eq!(process("grüße\nπ≈3\r\n日本語"), vec!["grüße", "π≈3", "日本語"]);
    assert_eq!(process("é\n"), vec!["é"]);
}

#[test]
fn framing_agrees_with_the_standard_line_iterator() {
    let texts = [
        "",
        "\n",
        "a",
        "a\n",
        "a\nb",
        "a\r\nb\r\n",
        "\r\n\r\n",
        "a\rb\n",
        "x\n\ny\n\n",
        "\"StopPressed\"\n{\"StartPressed\":\"C:/data/run\"}\n",
    ];
    for text in texts {
        let expected: Vec<&str> = text.lines().collect();
        assert_eq!(process(text), expected, "text {:?}", text);
    }
}

#[test]
fn start_is_dispatched_only_while_no_run_exists() {
    let start = Client::StartPressed("data/run1".to_string());
    assert_eq!(dispatch_event(start.clone(), false), Dispatch::Start("data/run1".to_string()));
    assert_eq!(dispatch_event(start, true), Dispatch::Nothing);
}

#[test]
fn stop_is_always_dispatched() {
    assert_eq!(dispatch_event(Client::StopPressed, true), Dispatch::Stop);
    assert_eq!(dispatch_event(Client::StopPressed, false), Dispatch::Stop);
}
