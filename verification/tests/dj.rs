use midi_uniforms::dj::{Button, Deck, DjP8Provider, Field, Knob, BUTTONS, FIELDS, KNOBS};
use midi_uniforms::message::Message;
use midi_uniforms::value::{Ratio, Value};

fn provider() -> DjP8Provider {
    DjP8Provider::unconnected()
}

fn ratio(numerator: u64, denominator: u64) -> Option<Value> {
    Some(Value::Ratio(Ratio { numerator, denominator }))
}

fn as_real(value: Option<Value>) -> f64 {
    match value {
        Some(Value::Ratio(r)) => r.numerator as f64 / r.denominator as f64,
        other => panic!("not a ratio: {:?}", other),
    }
}

const NAMES: [&str; 24] = [
    "left_bpm",
    "right_bpm",
    "left_low",
    "left_mid",
    "left_high",
    "right_low",
    "right_mid",
    "right_high",
    "left_pad_1",
    "left_pad_2",
    "left_pad_3",
    "left_pad_4",
    "right_pad_1",
    "right_pad_2",
    "right_pad_3",
    "right_pad_4",
    "left_play",
    "left_cue",
    "left_sync",
    "left_shift",
    "right_play",
    "right_cue",
    "right_sync",
    "right_shift",
];

#[test]
fn control_change_68_sets_left_low() {
    let mut p = provider();
    p.drain_and_apply(&vec![vec![0xB0, 68, 64]], 0);
    assert_eq!(p.get("left_low"), ratio(64, 127));
    let read = as_real(p.get("left_low"));
    assert!((read - 0.504).abs() < 0.001);
    assert_eq!(read, 64.0 / 127.0);
    assert_eq!(p.get("left_mid"), ratio(0, 127));
}

#[test]
fn left_low_follows_the_message() {
    let mut p = provider();
    p.apply(Message::ControlChange { control: 68, value: 64 }, 0);
    assert_eq!(p.get("left_low"), ratio(64, 127));
    p.apply(Message::ControlChange { control: 68, value: 127 }, 0);
    assert_eq!(as_real(p.get("left_low")), 1.0);
}

#[test]
fn note_33_is_left_play() {
    let mut p = provider();
    p.drain_and_apply(&vec![vec![0x90, 33, 127]], 0);
    assert_eq!(p.get("left_play"), Some(Value::Bool(true)));
    p.drain_and_apply(&vec![vec![0x80, 33, 0]], 1_000);
    assert_eq!(p.get("left_play"), Some(Value::Bool(false)));
}

#[test]
fn left_play_follows_the_messages() {
    let mut p = provider();
    p.apply(Message::NoteOn { note: 33, velocity: 127 }, 0);
    assert_eq!(p.get("left_play"), Some(Value::Bool(true)));
    assert_eq!(p.get("left_cue"), Some(Value::Bool(false)));
    p.apply(Message::NoteOff { note: 33 }, 0);
    assert_eq!(p.get("left_play"), Some(Value::Bool(false)));
}

#[test]
fn silent_note_on_releases_a_button() {
    let mut p = provider();
    p.apply(Message::NoteOn { note: 81, velocity: 1 }, 0);
    assert_eq!(p.get("right_play"), Some(Value::Bool(true)));
    p.apply(Message::NoteOn { note: 81, velocity: 0 }, 0);
    assert_eq!(p.get("right_play"), Some(Value::Bool(false)));
    p.receive(&[0x90, 81, 1], 0);
    p.receive(&[0x90, 81, 0], 0);
    assert_eq!(p.get("right_play"), Some(Value::Bool(false)));
}

#[test]
fn every_knob_has_its_control_number() {
    let controls = [68usize, 70, 72, 80, 82, 84];
    let names = ["left_low", "left_mid", "left_high", "right_low", "right_mid", "right_high"];
    for i in 0..6 {
        let mut p = provider();
        p.apply(Message::ControlChange { control: controls[i], value: 100 }, 0);
        for j in 0..6 {
            let expected = if i == j { 100 } else { 0 };
            assert_eq!(p.get(names[j]), ratio(expected, 127));
        }
        assert_eq!(Knob::for_control(controls[i]), Some(Knob::at(i)));
        assert_eq!(Knob::at(i).index(), i);
        assert_eq!(Knob::at(i).name(), names[i]);
    }
    assert_eq!(Knob::for_control(69), None);
    assert_eq!(Knob::for_control(0), None);
    assert_eq!(KNOBS, 6);
}

#[test]
fn every_button_has_its_note_number() {
    let notes = [25usize, 26, 27, 28, 73, 74, 75, 76, 33, 34, 35, 99, 81, 82, 83, 47];
    for i in 0..16 {
        let mut p = provider();
        p.apply(Message::NoteOn { note: notes[i], velocity: 1 }, 0);
        for j in 0..16 {
            assert_eq!(p.get(NAMES[8 + j]), Some(Value::Bool(i == j)));
        }
        assert_eq!(Button::for_note(notes[i]), Some(Button::at(i)));
        assert_eq!(Button::at(i).index(), i);
        assert_eq!(Button::at(i).name(), NAMES[8 + i]);
    }
    assert_eq!(Button::for_note(0), None);
    assert_eq!(Button::for_note(68), None);
    assert_eq!(Button::for_note(100), None);
    assert_eq!(BUTTONS, 16);
}

#[test]
fn unmapped_numbers_change_nothing() {
    let mut p = provider();
    p.apply(Message::NoteOn { note: 1, velocity: 1 }, 0);
    p.apply(Message::NoteOn { note: 5000, velocity: 1 }, 0);
    p.apply(Message::NoteOff { note: 68 }, 0);
    p.apply(Message::ControlChange { control: 33, value: 9 }, 0);
    p.apply(Message::ControlChange { control: 5000, value: 9 }, 0);
    for name in NAMES {
        assert_eq!(p.get(name), provider().get(name));
    }
}

#[test]
fn provides_lists_the_24_names_in_order() {
    let expected: Vec<String> = NAMES.iter().map(|n| String::from(*n)).collect();
    assert_eq!(provider().provides(), expected);
    assert_eq!(FIELDS, 24);
}

#[test]
fn every_listed_name_is_answered() {
    let p = provider();
    for (position, name) in p.provides().iter().enumerate() {
        assert_eq!(Field::named(name), Some(Field::at(position)));
        assert_eq!(Field::at(position).name(), name);
        assert_eq!(p.get(name), Some(p.read(Field::at(position))));
    }
}

#[test]
fn unknown_names_are_absent() {
    let p = provider();
    assert_eq!(p.get("left_pad_5"), None);
    assert_eq!(p.get("left_bpm "), None);
    assert_eq!(p.get("LEFT_BPM"), None);
    assert_eq!(p.get(""), None);
    assert_eq!(p.get("pressed.1"), None);
    assert_eq!(p.get("left"), None);
    assert_eq!(Field::named("centre_bpm"), None);
}

#[test]
fn fresh_provider_reads_zero_everywhere() {
    let p = provider();
    assert_eq!(p.get("left_bpm"), ratio(0, 1));
    assert_eq!(p.get("right_bpm"), ratio(0, 1));
    assert_eq!(as_real(p.get("left_bpm")), 0.0);
    for name in &NAMES[2..8] {
        assert_eq!(p.get(name), ratio(0, 127));
    }
    for name in &NAMES[8..] {
        assert_eq!(p.get(name), Some(Value::Bool(false)));
    }
}

#[test]
fn new_looks_for_the_marker_in_the_port_names() {
    let ports = vec![String::from("Midi Through"), String::from("DJ P8 MIDI 1"), String::from("P8")];
    let (p, index) = DjP8Provider::new(&ports).unwrap();
    assert_eq!(index, 1);
    assert_eq!(p.get("left_play"), Some(Value::Bool(false)));
    assert!(DjP8Provider::new(&vec![String::from("p8"), String::from("P 8")]).is_none());
    assert!(DjP8Provider::new(&Vec::new()).is_none());
}

#[test]
fn set_name_changes_nothing() {
    let mut p = provider();
    p.apply(Message::NoteOn { note: 33, velocity: 1 }, 0);
    p.set_name("other");
    assert_eq!(p.get("left_play"), Some(Value::Bool(true)));
    assert_eq!(p.get("other.left_play"), None);
    assert_eq!(p.provides().len(), 24);
}

#[test]
fn three_sync_taps_half_a_second_apart_give_120_bpm() {
    let mut p = provider();
    p.drain_and_apply(&vec![vec![0x90, 35, 127]], 0);
    assert_eq!(p.get("left_bpm"), ratio(0, 1));
    p.drain_and_apply(&vec![vec![0x80, 35, 0]], 100_000);
    p.drain_and_apply(&vec![vec![0x90, 35, 127]], 500_000);
    assert_eq!(p.get("left_bpm"), ratio(60_000_000, 500_000));
    assert_eq!(as_real(p.get("left_bpm")), 120.0);
    p.drain_and_apply(&vec![vec![0x80, 35, 0]], 600_000);
    assert_eq!(as_real(p.get("left_bpm")), 120.0);
    p.drain_and_apply(&vec![vec![0x90, 35, 127]], 1_000_000);
    assert_eq!(p.get("left_bpm"), ratio(60_000_000, 500_000));
    assert_eq!(as_real(p.get("left_bpm")), 120.0);
    assert_eq!(p.get("right_bpm"), ratio(0, 1));
}

#[test]
fn release_and_press_in_one_poll_is_a_tap() {
    let mut p = provider();
    p.drain_and_apply(&vec![vec![0x90, 83, 1]], 0);
    p.drain_and_apply(&vec![vec![0x80, 83, 0], vec![0x90, 83, 1]], 750_000);
    assert_eq!(p.get("right_bpm"), ratio(60_000_000, 750_000));
    assert_eq!(as_real(p.get("right_bpm")), 80.0);
    assert_eq!(p.get("left_bpm"), ratio(0, 1));
}

#[test]
fn holding_the_sync_button_taps_once() {
    let mut p = provider();
    p.apply(Message::NoteOn { note: 35, velocity: 1 }, 0);
    p.apply(Message::NoteOn { note: 35, velocity: 1 }, 500_000);
    assert_eq!(p.get("left_bpm"), ratio(0, 1));
    p.apply(Message::NoteOff { note: 35 }, 600_000);
    p.apply(Message::NoteOn { note: 35, velocity: 1 }, 1_000_000);
    assert_eq!(p.get("left_bpm"), ratio(60_000_000, 1_000_000));
}

#[test]
fn tap_after_a_stale_gap_starts_afresh() {
    let mut p = provider();
    p.drain_and_apply(&vec![vec![0x90, 35, 1], vec![0x80, 35, 0]], 0);
    p.drain_and_apply(&vec![vec![0x90, 35, 1], vec![0x80, 35, 0]], 500_000);
    assert_eq!(as_real(p.get("left_bpm")), 120.0);
    p.drain_and_apply(&vec![vec![0x90, 35, 1], vec![0x80, 35, 0]], 3_600_000);
    assert_eq!(p.get("left_bpm"), ratio(60_000_000, 500_000));
    p.drain_and_apply(&vec![vec![0x90, 35, 1], vec![0x80, 35, 0]], 4_200_000);
    assert_eq!(p.get("left_bpm"), ratio(60_000_000, 600_000));
    assert_eq!(as_real(p.get("left_bpm")), 100.0);
}

#[test]
fn first_tap_after_a_gap_of_3_1_seconds_measures_nothing() {
    let mut p = provider();
    p.drain_and_apply(&vec![vec![0x90, 35, 1], vec![0x80, 35, 0]], 0);
    p.drain_and_apply(&vec![vec![0x90, 35, 1]], 3_100_000);
    assert_eq!(p.get("left_bpm"), ratio(0, 1));
    assert!(as_real(p.get("left_bpm")) != 60.0 / 3.1);
}

#[test]
fn sweep_runs_on_a_poll_without_frames() {
    let mut p = provider();
    p.drain_and_apply(&vec![vec![0x90, 35, 1], vec![0x80, 35, 0]], 0);
    p.drain_and_apply(&Vec::new(), 3_000_000);
    p.drain_and_apply(&vec![vec![0x90, 35, 1]], 3_000_001);
    assert_eq!(p.get("left_bpm"), ratio(0, 1));
}

#[test]
fn the_two_decks_keep_their_own_tempo() {
    let mut p = provider();
    p.apply(Message::NoteOn { note: 35, velocity: 1 }, 0);
    p.apply(Message::NoteOn { note: 83, velocity: 1 }, 100_000);
    p.apply(Message::NoteOff { note: 35 }, 200_000);
    p.apply(Message::NoteOff { note: 83 }, 200_000);
    p.apply(Message::NoteOn { note: 35, velocity: 1 }, 400_000);
    p.apply(Message::NoteOn { note: 83, velocity: 1 }, 1_100_000);
    assert_eq!(p.get("left_bpm"), ratio(60_000_000, 400_000));
    assert_eq!(p.get("right_bpm"), ratio(60_000_000, 1_000_000));
    assert_eq!(p.read(Field::Bpm(Deck::Left)), Value::Ratio(Ratio { numerator: 60_000_000, denominator: 400_000 }));
    assert_eq!(Button::LeftSync.taps(), Some(Deck::Left));
    assert_eq!(Button::RightSync.taps(), Some(Deck::Right));
    assert_eq!(Button::LeftPlay.taps(), None);
}

#[test]
fn replayed_messages_leave_the_dj_state_alone() {
    let messages = [
        Message::NoteOn { note: 35, velocity: 3 },
        Message::NoteOn { note: 35, velocity: 0 },
        Message::NoteOff { note: 35 },
        Message::NoteOn { note: 25, velocity: 3 },
        Message::ControlChange { control: 70, value: 77 },
    ];
    for message in messages {
        let mut once = provider();
        let mut twice = provider();
        for p in [&mut once, &mut twice] {
            p.apply(Message::NoteOn { note: 35, velocity: 1 }, 0);
            p.apply(Message::NoteOff { note: 35 }, 0);
        }
        once.apply(message, 500_000);
        twice.apply(message, 500_000);
        twice.apply(message, 500_000);
        for name in NAMES {
            assert_eq!(once.get(name), twice.get(name));
        }
    }
}
