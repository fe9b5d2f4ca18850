use tether::process_table::lists_process;
use tether::text::matches_at;

#[test]
fn listed_process_is_alive() {
    let answer = "\r\npython.exe                    4242 Console                    1     52,140 K\r\n";
    assert!(lists_process(answer));
}

#[test]
fn no_match_notice_means_gone() {
    let answer = "INFO: No tasks are running which match the specified criteria.\r\n";
    assert!(!lists_process(answer));
}

#[test]
fn notice_after_other_text_means_gone() {
    assert!(!lists_process("\r\nINFO: No tasks"));
}

#[test]
fn empty_answer_means_gone() {
    assert!(!lists_process(""));
}

#[test]
fn short_answer_without_notice_is_alive() {
    assert!(lists_process("x"));
    assert!(lists_process("INFO: No task"));
}

#[test]
fn pattern_matching_at_positions() {
    let s = "abcabd";
    assert!(matches_at(s, 6, "abd", 3, 3));
    assert!(!matches_at(s, 6, "abd", 3, 0));
    assert!(matches_at(s, 6, "", 0, 6));
    assert!(matches_at("h\u{e9}llo", 5, "llo", 3, 2));
}
