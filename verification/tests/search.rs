use rustgrep::engine::{scan_lines, search_file, SearchConfig};
use rustgrep::pattern::CompiledPattern;

fn lines(v: &[&str]) -> Vec<String> {
    v.iter().map(|s| s.to_string()).collect()
}

fn sample() -> Vec<String> {
    lines(&["catalog", "dog", "concatenate"])
}

fn compiled(pattern: &str, ignore_case: bool) -> CompiledPattern {
    CompiledPattern::compile(pattern, ignore_case).unwrap()
}

#[test]
fn plain_match_reports_matching_lines_with_path_prefix() {
    let cp = compiled("cat", false);
    let r = search_file(&cp, false, false, false, Some("a.txt"), &sample());
    assert_eq!(r.output, lines(&["a.txt:catalog", "a.txt:concatenate"]));
    assert_eq!(r.count, 2);
}

#[test]
fn invert_reports_the_complement() {
    let cp = compiled("cat", false);
    let r = search_file(&cp, false, true, false, Some("a.txt"), &sample());
    assert_eq!(r.output, lines(&["a.txt:dog"]));
    assert_eq!(r.count, 1);
}

#[test]
fn invert_partitions_every_line() {
    let cp = compiled("cat", false);
    let straight = search_file(&cp, false, false, false, Some("a.txt"), &sample());
    let inverted = search_file(&cp, false, true, false, Some("a.txt"), &sample());
    assert_eq!(straight.count + inverted.count, sample().len());
    for line in &sample() {
        let reported_straight = straight.output.contains(&format!("a.txt:{}", line));
        let reported_inverted = inverted.output.contains(&format!("a.txt:{}", line));
        assert!(reported_straight != reported_inverted);
    }
}

#[test]
fn count_mode_emits_one_count_line() {
    let cp = compiled("cat", false);
    let r = search_file(&cp, false, false, true, Some("a.txt"), &sample());
    assert_eq!(r.output, lines(&["a.txt:2"]));
    assert_eq!(r.count, 2);
}

#[test]
fn count_mode_emits_zero_for_no_matches() {
    let cp = compiled("zebra", false);
    let r = search_file(&cp, false, false, true, Some("a.txt"), &sample());
    assert_eq!(r.output, lines(&["a.txt:0"]));
    assert_eq!(r.count, 0);
}

#[test]
fn count_equals_number_of_line_mode_records() {
    let cp = compiled("cat", false);
    let counted = search_file(&cp, false, false, true, Some("a.txt"), &sample());
    let listed = search_file(&cp, false, false, false, Some("a.txt"), &sample());
    assert_eq!(counted.count, listed.output.len());
    assert_eq!(counted.count, listed.count);
}

#[test]
fn line_numbers_are_one_based() {
    let cp = compiled("cat", false);
    let r = search_file(&cp, true, false, false, Some("a.txt"), &sample());
    assert_eq!(r.output, lines(&["a.txt:1:catalog", "a.txt:3:concatenate"]));
}

#[test]
fn bare_output_without_label() {
    let cp = compiled("cat", false);
    let r = search_file(&cp, false, false, false, None, &sample());
    assert_eq!(r.output, lines(&["catalog", "concatenate"]));
}

#[test]
fn bare_output_with_line_numbers() {
    let cp = compiled("dog", false);
    let r = search_file(&cp, true, false, false, None, &sample());
    assert_eq!(r.output, lines(&["2:dog"]));
}

#[test]
fn bare_count_without_label() {
    let cp = compiled("cat", false);
    let r = search_file(&cp, false, false, true, None, &sample());
    assert_eq!(r.output, lines(&["2"]));
}

#[test]
fn ignore_case_matches_across_casing() {
    let cp = compiled("ABC", true);
    assert!(cp.matches("abc"));
    assert!(cp.matches("xxABCxx"));
    assert!(cp.matches("aBc"));
}

#[test]
fn ignore_case_leaves_output_casing_unchanged() {
    let cp = compiled("ABC", true);
    let r = search_file(&cp, false, false, false, Some("a.txt"), &lines(&["abc", "zzz"]));
    assert_eq!(r.output, lines(&["a.txt:abc"]));
}

#[test]
fn case_sensitive_by_default() {
    let cp = compiled("ABC", false);
    assert!(!cp.matches("abc"));
    assert!(cp.matches("ABC"));
}

#[test]
fn empty_pattern_matches_every_line() {
    let cp = compiled("", false);
    assert!(cp.matches(""));
    assert!(cp.matches("anything at all"));
    let r = search_file(&cp, false, false, false, Some("a.txt"), &sample());
    assert_eq!(r.output, lines(&["a.txt:catalog", "a.txt:dog", "a.txt:concatenate"]));
    assert_eq!(r.count, 3);
}

#[test]
fn empty_file_yields_no_output_and_zero_count() {
    let cp = compiled("cat", false);
    let empty: Vec<String> = Vec::new();
    let r = search_file(&cp, false, false, false, Some("a.txt"), &empty);
    assert!(r.output.is_empty());
    assert_eq!(r.count, 0);
}

#[test]
fn invalid_pattern_is_rejected() {
    assert!(CompiledPattern::compile("[", false).is_err());
    assert!(CompiledPattern::compile("(unclosed", false).is_err());
    assert!(CompiledPattern::compile("a)", true).is_err());
}

#[test]
fn regex_syntax_is_honoured() {
    let cp = compiled("^cat", false);
    let r = search_file(&cp, false, false, false, Some("a.txt"), &sample());
    assert_eq!(r.output, lines(&["a.txt:catalog"]));
    let cp = compiled("c.t", false);
    assert!(cp.matches("cut"));
    assert!(!cp.matches("ct"));
}

#[test]
fn scan_records_carry_number_and_text() {
    let cp = compiled("cat", false);
    let recs = scan_lines(&cp, false, &sample());
    assert_eq!(recs.len(), 2);
    assert_eq!(recs[0].line_number, 1);
    assert_eq!(recs[0].text, "catalog");
    assert_eq!(recs[1].line_number, 3);
    assert_eq!(recs[1].text, "concatenate");
}

#[test]
fn multi_digit_counts_and_line_numbers() {
    let cp = compiled("x", false);
    let many: Vec<String> = (0..12).map(|_| "x".to_string()).collect();
    let counted = search_file(&cp, false, false, true, Some("big.txt"), &many);
    assert_eq!(counted.output, lines(&["big.txt:12"]));
    let mut tail = vec!["y".to_string(); 10];
    tail.push("x marks the spot".to_string());
    let listed = search_file(&cp, true, false, false, Some("big.txt"), &tail);
    assert_eq!(listed.output, lines(&["big.txt:11:x marks the spot"]));
}

#[test]
fn config_compile_uses_its_own_fields() {
    let config = SearchConfig {
        pattern: "DOG".to_string(),
        ignore_case: true,
        show_line_number: false,
        invert: false,
        recursive: false,
        count_only: false,
        targets: vec!["a.txt".to_string()],
    };
    let cp = config.compile().unwrap();
    assert!(cp.matches("hot dog"));
    let bad = SearchConfig {
        pattern: "[".to_string(),
        ignore_case: false,
        show_line_number: false,
        invert: false,
        recursive: false,
        count_only: false,
        targets: Vec::new(),
    };
    assert!(bad.compile().is_err());
}

#[test]
fn every_walked_file_contributes_its_matches() {
    let cp = compiled("cat", false);
    let top = lines(&["cat on the mat", "nothing here"]);
    let nested = lines(&["another cat"]);
    let mut output = Vec::new();
    let mut total = 0;
    for (label, file_lines) in [("d/x.txt", &top), ("d/sub/y.txt", &nested)] {
        let r = search_file(&cp, false, false, false, Some(label), file_lines);
        total += r.count;
        output.extend(r.output);
    }
    assert_eq!(output, lines(&["d/x.txt:cat on the mat", "d/sub/y.txt:another cat"]));
    assert_eq!(total, 2);
}
