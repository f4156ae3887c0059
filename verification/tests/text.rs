use midi_uniforms::ports::{select_port, PortNotFound};
use midi_uniforms::text::{chars_of, contains, index_in_name, is_joined, matches_at, same_text, starts_with};

fn index(name: &str, limit: usize) -> Option<usize> {
    index_in_name(&chars_of(name), limit)
}

fn has(hay: &str, needle: &str) -> bool {
    contains(&chars_of(hay), &chars_of(needle))
}

#[test]
fn chars_of_keeps_every_character() {
    assert_eq!(chars_of(""), Vec::<char>::new());
    assert_eq!(chars_of("a.1"), vec!['a', '.', '1']);
    assert_eq!(chars_of("né→x"), vec!['n', 'é', '→', 'x']);
}

#[test]
fn index_is_the_number_in_the_second_segment() {
    assert_eq!(index("pressed.5", 1024), Some(5));
    assert_eq!(index("pressed.0", 1024), Some(0));
    assert_eq!(index("x.1023", 1024), Some(1023));
    assert_eq!(index(".7", 1024), Some(7));
    assert_eq!(index("a.12.b.99", 1024), Some(12));
    assert_eq!(index("a.12.", 1024), Some(12));
    assert_eq!(index("a.0012", 1024), Some(12));
    assert_eq!(index("a.+12", 1024), Some(12));
    assert_eq!(index("a.000000000000000000000000000000000000001", 2), Some(1));
}

#[test]
fn index_is_absent_when_it_reaches_the_limit() {
    assert_eq!(index("x.1024", 1024), None);
    assert_eq!(index("x.5000", 1024), None);
    assert_eq!(index("x.0", 0), None);
    assert_eq!(index("x.18446744073709551615", 1024), None);
    assert_eq!(index("x.18446744073709551616", usize::MAX), None);
    assert_eq!(index("x.340282366920938463463374607431768211456", usize::MAX), None);
    assert_eq!(index("x.1024", 1025), Some(1024));
    assert_eq!(index("x.65535", usize::MAX), Some(65535));
}

#[test]
fn index_is_absent_when_the_segment_is_no_number() {
    assert_eq!(index("", 1024), None);
    assert_eq!(index("5", 1024), None);
    assert_eq!(index("pressed", 1024), None);
    assert_eq!(index("pressed.", 1024), None);
    assert_eq!(index("pressed..5", 1024), None);
    assert_eq!(index("a.b", 1024), None);
    assert_eq!(index("a.5b", 1024), None);
    assert_eq!(index("a.b5", 1024), None);
    assert_eq!(index("a.-5", 1024), None);
    assert_eq!(index("a.+", 1024), None);
    assert_eq!(index("a.++5", 1024), None);
    assert_eq!(index("a.5+", 1024), None);
    assert_eq!(index("a. 5", 1024), None);
    assert_eq!(index("a.٥", 1024), None);
    assert_eq!(index("a.5/", 1024), None);
    assert_eq!(index("a.5:", 1024), None);
}

#[test]
fn contains_finds_a_fragment_anywhere() {
    assert!(has("Launch Pad MIDI 1", "Pad"));
    assert!(has("Pad", "Pad"));
    assert!(has("xxPad", "Pad"));
    assert!(has("Padxx", "Pad"));
    assert!(has("aaab", "aab"));
    assert!(has("anything", ""));
    assert!(has("", ""));
    assert!(!has("", "Pad"));
    assert!(!has("Pa", "Pad"));
    assert!(!has("pad", "Pad"));
    assert!(!has("P ad", "Pad"));
    assert!(!has("daP", "Pad"));
    assert!(!has("PaPaPa", "Pad"));
}

#[test]
fn matches_at_compares_in_place() {
    let hay = chars_of("left_play");
    assert!(matches_at(&hay, &chars_of("left"), 0));
    assert!(matches_at(&hay, &chars_of("play"), 5));
    assert!(matches_at(&hay, &chars_of(""), 9));
    assert!(!matches_at(&hay, &chars_of(""), 10));
    assert!(!matches_at(&hay, &chars_of("play"), 6));
    assert!(!matches_at(&hay, &chars_of("play"), usize::MAX));
    assert!(!matches_at(&hay, &chars_of("left_play_"), 0));
}

#[test]
fn prefixes_and_equality() {
    let text = chars_of("pressed_time.3");
    assert!(starts_with(&text, &chars_of("pressed_time")));
    assert!(starts_with(&text, &chars_of("pressed")));
    assert!(starts_with(&text, &chars_of("")));
    assert!(starts_with(&text, &text));
    assert!(!starts_with(&text, &chars_of("toggled")));
    assert!(!starts_with(&chars_of("press"), &chars_of("pressed")));
    assert!(same_text(&text, &chars_of("pressed_time.3")));
    assert!(!same_text(&text, &chars_of("pressed_time.4")));
    assert!(!same_text(&text, &chars_of("pressed_time.")));
    assert!(same_text(&chars_of(""), &chars_of("")));
}

#[test]
fn joined_text_is_head_then_tail() {
    let text = chars_of("pad.values");
    assert!(is_joined(&text, &chars_of("pad"), &chars_of(".values")));
    assert!(is_joined(&text, &chars_of(""), &chars_of("pad.values")));
    assert!(is_joined(&text, &chars_of("pad.values"), &chars_of("")));
    assert!(!is_joined(&text, &chars_of("pad"), &chars_of(".value")));
    assert!(!is_joined(&text, &chars_of("pad"), &chars_of(".valuess")));
    assert!(!is_joined(&text, &chars_of("pa"), &chars_of(".values")));
    assert!(!is_joined(&text, &chars_of("pad."), &chars_of(".values")));
    assert!(!is_joined(&text, &chars_of("pad.values.more"), &chars_of("")));
}

#[test]
fn select_port_takes_the_first_match() {
    let ports = vec![String::from("Through"), String::from("Pad A"), String::from("Pad B")];
    assert_eq!(select_port(&ports, "Pad"), Some(1));
    assert_eq!(select_port(&ports, "Pad B"), Some(2));
    assert_eq!(select_port(&ports, "h"), Some(0));
    assert_eq!(select_port(&ports, ""), Some(0));
    assert_eq!(select_port(&ports, "pad"), None);
    assert_eq!(select_port(&Vec::new(), ""), None);
}

#[test]
fn port_not_found_says_what_was_wanted() {
    let error = PortNotFound { wanted: String::from("Pad") };
    assert_eq!(error.message(), "Could not find midi device with matching port name matching \"Pad\"");
    let empty = PortNotFound { wanted: String::new() };
    assert_eq!(empty.message(), "Could not find midi device with matching port name matching \"\"");
}
