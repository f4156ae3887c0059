//! A two-deck DJ controller with a fixed layout: three equaliser knobs, four
//! pads and four transport buttons on each deck, and a tap tempo on each sync
//! button.
use crate::controller::frame_bytes;
use crate::message::{decode_frame, frame_message, Message};
use crate::ports::{is_first_match, no_match, port_names, select_port};
use crate::tempo::{Tempo, TempoModel};
use crate::text::{chars_of, same_text};
use crate::value::{answers, Ratio, Value, ValueModel};
use vstd::prelude::*;

verus! {

/// The number of knobs.
pub const KNOBS: usize = 6;

/// The number of buttons, pads included.
pub const BUTTONS: usize = 16;

/// The number of names that the provider answers.
pub const FIELDS: usize = 24;

/// The value of a knob turned all the way up.
pub const KNOB_MAX: u64 = 127;

/// One of the two decks.
#[derive(Clone, Copy, Debug, PartialEq, Eq, Structural)]
pub enum Deck {
    Left,
    Right,
}

/// An equaliser knob.
#[derive(Clone, Copy, Debug, PartialEq, Eq, Structural)]
pub enum Knob {
    LeftLow,
    LeftMid,
    LeftHigh,
    RightLow,
    RightMid,
    RightHigh,
}

/// A pad or a transport button.
#[derive(Clone, Copy, Debug, PartialEq, Eq, Structural)]
pub enum Button {
    LeftPad1,
    LeftPad2,
    LeftPad3,
    LeftPad4,
    RightPad1,
    RightPad2,
    RightPad3,
    RightPad4,
    LeftPlay,
    LeftCue,
    LeftSync,
    LeftShift,
    RightPlay,
    RightCue,
    RightSync,
    RightShift,
}

/// Something that a name can ask for.
#[derive(Clone, Copy, Debug, PartialEq, Eq, Structural)]
pub enum Field {
    Bpm(Deck),
    Knob(Knob),
    Button(Button),
}

impl Knob {
    /// Where the knob's value is kept.
    pub open spec fn index_spec(self) -> usize {
        match self {
            Knob::LeftLow => 0,
            Knob::LeftMid => 1,
            Knob::LeftHigh => 2,
            Knob::RightLow => 3,
            Knob::RightMid => 4,
            Knob::RightHigh => 5,
        }
    }

    /// The knob whose value is kept at `index`.
    pub open spec fn at_spec(index: usize) -> Knob {
        if index == 0 {
            Knob::LeftLow
        } else if index == 1 {
            Knob::LeftMid
        } else if index == 2 {
            Knob::LeftHigh
        } else if index == 3 {
            Knob::RightLow
        } else if index == 4 {
            Knob::RightMid
        } else {
            Knob::RightHigh
        }
    }

    /// The knob that control number `control` moves, if it moves one.
    pub open spec fn for_control_spec(control: usize) -> Option<Knob> {
        if control == 68 {
            Some(Knob::LeftLow)
        } else if control == 70 {
            Some(Knob::LeftMid)
        } else if control == 72 {
            Some(Knob::LeftHigh)
        } else if control == 80 {
            Some(Knob::RightLow)
        } else if control == 82 {
            Some(Knob::RightMid)
        } else if control == 84 {
            Some(Knob::RightHigh)
        } else {
            None
        }
    }

    /// The knob's name.
    pub open spec fn label(self) -> Seq<char> {
        match self {
            Knob::LeftLow => "left_low"@,
            Knob::LeftMid => "left_mid"@,
            Knob::LeftHigh => "left_high"@,
            Knob::RightLow => "right_low"@,
            Knob::RightMid => "right_mid"@,
            Knob::RightHigh => "right_high"@,
        }
    }

    /// Where the knob's value is kept.
    #[verifier::when_used_as_spec(index_spec)]
    pub fn index(self) -> (r: usize)
        ensures
            r == self.index_spec(),
            r < KNOBS,
    {
        match self {
            Knob::LeftLow => 0,
            Knob::LeftMid => 1,
            Knob::LeftHigh => 2,
            Knob::RightLow => 3,
            Knob::RightMid => 4,
            Knob::RightHigh => 5,
        }
    }

    /// The knob whose value is kept at `index`; the last one for any index
    /// past the end.
    #[verifier::when_used_as_spec(at_spec)]
    pub fn at(index: usize) -> (r: Knob)
        ensures
            r == Knob::at_spec(index),
            index < KNOBS ==> r.index_spec() == index,
    {
        match index {
            0 => Knob::LeftLow,
            1 => Knob::LeftMid,
            2 => Knob::LeftHigh,
            3 => Knob::RightLow,
            4 => Knob::RightMid,
            _ => Knob::RightHigh,
        }
    }

    /// The knob that control number `control` moves, if it moves one.
    #[verifier::when_used_as_spec(for_control_spec)]
    pub fn for_control(control: usize) -> (r: Option<Knob>)
        ensures
            r == Knob::for_control_spec(control),
    {
        match control {
            68 => Some(Knob::LeftLow),
            70 => Some(Knob::LeftMid),
            72 => Some(Knob::LeftHigh),
            80 => Some(Knob::RightLow),
            82 => Some(Knob::RightMid),
            84 => Some(Knob::RightHigh),
            _ => None,
        }
    }

    /// The knob's name.
    pub fn name(self) -> (r: &'static str)
        ensures
            r@ == self.label(),
    {
        match self {
            Knob::LeftLow => "left_low",
            Knob::LeftMid => "left_mid",
            Knob::LeftHigh => "left_high",
            Knob::RightLow => "right_low",
            Knob::RightMid => "right_mid",
            Knob::RightHigh => "right_high",
        }
    }
}

impl Button {
    /// Where the button's state is kept.
    pub open spec fn index_spec(self) -> usize {
        match self {
            Button::LeftPad1 => 0,
            Button::LeftPad2 => 1,
            Button::LeftPad3 => 2,
            Button::LeftPad4 => 3,
            Button::RightPad1 => 4,
            Button::RightPad2 => 5,
            Button::RightPad3 => 6,
            Button::RightPad4 => 7,
            Button::LeftPlay => 8,
            Button::LeftCue => 9,
            Button::LeftSync => 10,
            Button::LeftShift => 11,
            Button::RightPlay => 12,
            Button::RightCue => 13,
            Button::RightSync => 14,
            Button::RightShift => 15,
        }
    }

    /// The button whose state is kept at `index`.
    pub open spec fn at_spec(index: usize) -> Button {
        if index == 0 {
            Button::LeftPad1
        } else if index == 1 {
            Button::LeftPad2
        } else if index == 2 {
            Button::LeftPad3
        } else if index == 3 {
            Button::LeftPad4
        } else if index == 4 {
            Button::RightPad1
        } else if index == 5 {
            Button::RightPad2
        } else if index == 6 {
            Button::RightPad3
        } else if index == 7 {
            Button::RightPad4
        } else if index == 8 {
            Button::LeftPlay
        } else if index == 9 {
            Button::LeftCue
        } else if index == 10 {
            Button::LeftSync
        } else if index == 11 {
            Button::LeftShift
        } else if index == 12 {
            Button::RightPlay
        } else if index == 13 {
            Button::RightCue
        } else if index == 14 {
            Button::RightSync
        } else {
            Button::RightShift
        }
    }

    /// The button that note number `note` stands for, if it stands for one.
    pub open spec fn for_note_spec(note: usize) -> Option<Button> {
        if note == 25 {
            Some(Button::LeftPad1)
        } else if note == 26 {
            Some(Button::LeftPad2)
        } else if note == 27 {
            Some(Button::LeftPad3)
        } else if note == 28 {
            Some(Button::LeftPad4)
        } else if note == 73 {
            Some(Button::RightPad1)
        } else if note == 74 {
            Some(Button::RightPad2)
        } else if note == 75 {
            Some(Button::RightPad3)
        } else if note == 76 {
            Some(Button::RightPad4)
        } else if note == 33 {
            Some(Button::LeftPlay)
        } else if note == 34 {
            Some(Button::LeftCue)
        } else if note == 35 {
            Some(Button::LeftSync)
        } else if note == 99 {
            Some(Button::LeftShift)
        } else if note == 81 {
            Some(Button::RightPlay)
        } else if note == 82 {
            Some(Button::RightCue)
        } else if note == 83 {
            Some(Button::RightSync)
        } else if note == 47 {
            Some(Button::RightShift)
        } else {
            None
        }
    }

    /// The deck whose tempo the button taps, if it is a sync button.
    pub open spec fn taps_spec(self) -> Option<Deck> {
        match self {
            Button::LeftSync => Some(Deck::Left),
            Button::RightSync => Some(Deck::Right),
            _ => None,
        }
    }

    /// The button's name.
    pub open spec fn label(self) -> Seq<char> {
        match self {
            Button::LeftPad1 => "left_pad_1"@,
            Button::LeftPad2 => "left_pad_2"@,
            Button::LeftPad3 => "left_pad_3"@,
            Button::LeftPad4 => "left_pad_4"@,
            Button::RightPad1 => "right_pad_1"@,
            Button::RightPad2 => "right_pad_2"@,
            Button::RightPad3 => "right_pad_3"@,
            Button::RightPad4 => "right_pad_4"@,
            Button::LeftPlay => "left_play"@,
            Button::LeftCue => "left_cue"@,
            Button::LeftSync => "left_sync"@,
            Button::LeftShift => "left_shift"@,
            Button::RightPlay => "right_play"@,
            Button::RightCue => "right_cue"@,
            Button::RightSync => "right_sync"@,
            Button::RightShift => "right_shift"@,
        }
    }

    /// Where the button's state is kept.
    #[verifier::when_used_as_spec(index_spec)]
    pub fn index(self) -> (r: usize)
        ensures
            r == self.index_spec(),
            r < BUTTONS,
    {
        match self {
            Button::LeftPad1 => 0,
            Button::LeftPad2 => 1,
            Button::LeftPad3 => 2,
            Button::LeftPad4 => 3,
            Button::RightPad1 => 4,
            Button::RightPad2 => 5,
            Button::RightPad3 => 6,
            Button::RightPad4 => 7,
            Button::LeftPlay => 8,
            Button::LeftCue => 9,
            Button::LeftSync => 10,
            Button::LeftShift => 11,
            Button::RightPlay => 12,
            Button::RightCue => 13,
            Button::RightSync => 14,
            Button::RightShift => 15,
        }
    }

    /// The button whose state is kept at `index`; the last one for any index
    /// past the end.
    #[verifier::when_used_as_spec(at_spec)]
    pub fn at(index: usize) -> (r: Button)
        ensures
            r == Button::at_spec(index),
            index < BUTTONS ==> r.index_spec() == index,
    {
        match index {
            0 => Button::LeftPad1,
            1 => Button::LeftPad2,
            2 => Button::LeftPad3,
            3 => Button::LeftPad4,
            4 => Button::RightPad1,
            5 => Button::RightPad2,
            6 => Button::RightPad3,
            7 => Button::RightPad4,
            8 => Button::LeftPlay,
            9 => Button::LeftCue,
            10 => Button::LeftSync,
            11 => Button::LeftShift,
            12 => Button::RightPlay,
            13 => Button::RightCue,
            14 => Button::RightSync,
            _ => Button::RightShift,
        }
    }

    /// The button that note number `note` stands for, if it stands for one.
    #[verifier::when_used_as_spec(for_note_spec)]
    pub fn for_note(note: usize) -> (r: Option<Button>)
        ensures
            r == Button::for_note_spec(note),
    {
        match note {
            25 => Some(Button::LeftPad1),
            26 => Some(Button::LeftPad2),
            27 => Some(Button::LeftPad3),
            28 => Some(Button::LeftPad4),
            73 => Some(Button::RightPad1),
            74 => Some(Button::RightPad2),
            75 => Some(Button::RightPad3),
            76 => Some(Button::RightPad4),
            33 => Some(Button::LeftPlay),
            34 => Some(Button::LeftCue),
            35 => Some(Button::LeftSync),
            99 => Some(Button::LeftShift),
            81 => Some(Button::RightPlay),
            82 => Some(Button::RightCue),
            83 => Some(Button::RightSync),
            47 => Some(Button::RightShift),
            _ => None,
        }
    }

    /// The deck whose tempo the button taps, if it is a sync button.
    #[verifier::when_used_as_spec(taps_spec)]
    pub fn taps(self) -> (r: Option<Deck>)
        ensures
            r == self.taps_spec(),
    {
        match self {
            Button::LeftSync => Some(Deck::Left),
            Button::RightSync => Some(Deck::Right),
            _ => None,
        }
    }

    /// The button's name.
    pub fn name(self) -> (r: &'static str)
        ensures
            r@ == self.label(),
    {
        match self {
            Button::LeftPad1 => "left_pad_1",
            Button::LeftPad2 => "left_pad_2",
            Button::LeftPad3 => "left_pad_3",
            Button::LeftPad4 => "left_pad_4",
            Button::RightPad1 => "right_pad_1",
            Button::RightPad2 => "right_pad_2",
            Button::RightPad3 => "right_pad_3",
            Button::RightPad4 => "right_pad_4",
            Button::LeftPlay => "left_play",
            Button::LeftCue => "left_cue",
            Button::LeftSync => "left_sync",
            Button::LeftShift => "left_shift",
            Button::RightPlay => "right_play",
            Button::RightCue => "right_cue",
            Button::RightSync => "right_sync",
            Button::RightShift => "right_shift",
        }
    }
}

impl Field {
    /// The field that stands at `position` in the list of names: the two
    /// tempos, then the knobs, then the buttons.
    pub open spec fn at_spec(position: usize) -> Field {
        if position == 0 {
            Field::Bpm(Deck::Left)
        } else if position == 1 {
            Field::Bpm(Deck::Right)
        } else if position < 2 + KNOBS {
            Field::Knob(Knob::at_spec((position - 2) as usize))
        } else {
            Field::Button(Button::at_spec((position - 2 - KNOBS) as usize))
        }
    }

    /// Where the field stands in the list of names.
    pub open spec fn position(self) -> usize {
        match self {
            Field::Bpm(Deck::Left) => 0,
            Field::Bpm(Deck::Right) => 1,
            Field::Knob(knob) => (2 + knob.index_spec()) as usize,
            Field::Button(button) => (2 + KNOBS + button.index_spec()) as usize,
        }
    }

    /// The field's name.
    pub open spec fn label(self) -> Seq<char> {
        match self {
            Field::Bpm(Deck::Left) => "left_bpm"@,
            Field::Bpm(Deck::Right) => "right_bpm"@,
            Field::Knob(knob) => knob.label(),
            Field::Button(button) => button.label(),
        }
    }

    /// The first field from `position` on whose name is `name`.
    pub open spec fn named_from(name: Seq<char>, position: usize) -> Option<Field>
        decreases FIELDS - position,
    {
        if position >= FIELDS {
            None
        } else if Field::at_spec(position).label() == name {
            Some(Field::at_spec(position))
        } else {
            Field::named_from(name, (position + 1) as usize)
        }
    }

    /// The field whose name is `name`, if there is one.
    pub open spec fn named_spec(name: Seq<char>) -> Option<Field> {
        Field::named_from(name, 0)
    }

    /// The field that stands at `position` in the list of names; the last
    /// one for any position past the end.
    #[verifier::when_used_as_spec(at_spec)]
    pub fn at(position: usize) -> (r: Field)
        ensures
            r == Field::at_spec(position),
    {
        if position == 0 {
            Field::Bpm(Deck::Left)
        } else if position == 1 {
            Field::Bpm(Deck::Right)
        } else if position < 2 + KNOBS {
            Field::Knob(Knob::at(position - 2))
        } else {
            Field::Button(Button::at(position - 2 - KNOBS))
        }
    }

    /// The field's name.
    pub fn name(self) -> (r: &'static str)
        ensures
            r@ == self.label(),
    {
        match self {
            Field::Bpm(Deck::Left) => "left_bpm",
            Field::Bpm(Deck::Right) => "right_bpm",
            Field::Knob(knob) => knob.name(),
            Field::Button(button) => button.name(),
        }
    }

    /// The field whose name is `name`, if there is one.
    pub fn named(name: &str) -> (r: Option<Field>)
        ensures
            r == Field::named_spec(name@),
    {
        let wanted = chars_of(name);
        let mut position: usize = 0;
        while position < FIELDS
            invariant
                position <= FIELDS,
                wanted@ == name@,
                Field::named_spec(name@) == Field::named_from(name@, position),
            decreases FIELDS - position,
        {
            let field = Field::at(position);
            if same_text(&wanted, &chars_of(field.name())) {
                return Some(field);
            }
            position += 1;
        }
        None
    }

    /// Every field has a place in the list of names, and stands there.
    pub proof fn stands_at_its_position(self)
        ensures
            self.position() < FIELDS,
            Field::at_spec(self.position()) == self,
    {
    }

    /// The first and the last character of the field's name.
    pub open spec fn ends(self) -> (char, char) {
        match self {
            Field::Bpm(Deck::Left) => ('l', 'm'),
            Field::Bpm(Deck::Right) => ('r', 'm'),
            Field::Knob(Knob::LeftLow) => ('l', 'w'),
            Field::Knob(Knob::LeftMid) => ('l', 'd'),
            Field::Knob(Knob::LeftHigh) => ('l', 'h'),
            Field::Knob(Knob::RightLow) => ('r', 'w'),
            Field::Knob(Knob::RightMid) => ('r', 'd'),
            Field::Knob(Knob::RightHigh) => ('r', 'h'),
            Field::Button(Button::LeftPad1) => ('l', '1'),
            Field::Button(Button::LeftPad2) => ('l', '2'),
            Field::Button(Button::LeftPad3) => ('l', '3'),
            Field::Button(Button::LeftPad4) => ('l', '4'),
            Field::Button(Button::RightPad1) => ('r', '1'),
            Field::Button(Button::RightPad2) => ('r', '2'),
            Field::Button(Button::RightPad3) => ('r', '3'),
            Field::Button(Button::RightPad4) => ('r', '4'),
            Field::Button(Button::LeftPlay) => ('l', 'y'),
            Field::Button(Button::LeftCue) => ('l', 'e'),
            Field::Button(Button::LeftSync) => ('l', 'c'),
            Field::Button(Button::LeftShift) => ('l', 't'),
            Field::Button(Button::RightPlay) => ('r', 'y'),
            Field::Button(Button::RightCue) => ('r', 'e'),
            Field::Button(Button::RightSync) => ('r', 'c'),
            Field::Button(Button::RightShift) => ('r', 't'),
        }
    }

    /// A field's name begins and ends as [`Field::ends`] says.
    pub proof fn name_has_its_ends(self)
        ensures
            self.label().len() > 0,
            self.label()[0] == self.ends().0,
            self.label().last() == self.ends().1,
    {
        match self {
            Field::Bpm(Deck::Left) => reveal_strlit("left_bpm"),
            Field::Bpm(Deck::Right) => reveal_strlit("right_bpm"),
            Field::Knob(Knob::LeftLow) => reveal_strlit("left_low"),
            Field::Knob(Knob::LeftMid) => reveal_strlit("left_mid"),
            Field::Knob(Knob::LeftHigh) => reveal_strlit("left_high"),
            Field::Knob(Knob::RightLow) => reveal_strlit("right_low"),
            Field::Knob(Knob::RightMid) => reveal_strlit("right_mid"),
            Field::Knob(Knob::RightHigh) => reveal_strlit("right_high"),
            Field::Button(Button::LeftPad1) => reveal_strlit("left_pad_1"),
            Field::Button(Button::LeftPad2) => reveal_strlit("left_pad_2"),
            Field::Button(Button::LeftPad3) => reveal_strlit("left_pad_3"),
            Field::Button(Button::LeftPad4) => reveal_strlit("left_pad_4"),
            Field::Button(Button::RightPad1) => reveal_strlit("right_pad_1"),
            Field::Button(Button::RightPad2) => reveal_strlit("right_pad_2"),
            Field::Button(Button::RightPad3) => reveal_strlit("right_pad_3"),
            Field::Button(Button::RightPad4) => reveal_strlit("right_pad_4"),
            Field::Button(Button::LeftPlay) => reveal_strlit("left_play"),
            Field::Button(Button::LeftCue) => reveal_strlit("left_cue"),
            Field::Button(Button::LeftSync) => reveal_strlit("left_sync"),
            Field::Button(Button::LeftShift) => reveal_strlit("left_shift"),
            Field::Button(Button::RightPlay) => reveal_strlit("right_play"),
            Field::Button(Button::RightCue) => reveal_strlit("right_cue"),
            Field::Button(Button::RightSync) => reveal_strlit("right_sync"),
            Field::Button(Button::RightShift) => reveal_strlit("right_shift"),
        }
    }

    /// No two fields share a name: the names differ in their first or in
    /// their last character.
    pub proof fn names_are_distinct(self, other: Field)
        requires
            self.label() == other.label(),
        ensures
            self == other,
    {
        self.name_has_its_ends();
        other.name_has_its_ends();
    }

    /// A search that starts at or before a field's position finds that field
    /// under its name.
    proof fn found_from(self, position: usize)
        requires
            position <= self.position(),
        ensures
            Field::named_from(self.label(), position) == Some(self),
        decreases self.position() - position,
    {
        self.stands_at_its_position();
        let here = Field::at_spec(position);
        if here.label() == self.label() {
            here.names_are_distinct(self);
        } else {
            self.found_from((position + 1) as usize);
        }
    }

    /// Every field is found under its own name.
    pub proof fn found_by_its_name(self)
        ensures
            Field::named_spec(self.label()) == Some(self),
    {
        self.found_from(0);
    }

    /// A name finds a field only if it is that field's name.
    pub proof fn found_field_has_the_name(name: Seq<char>, position: usize)
        ensures
            Field::named_from(name, position) matches Some(field) ==> field.label() == name,
        decreases FIELDS - position,
    {
        if position < FIELDS && Field::at_spec(position).label() != name {
            Field::found_field_has_the_name(name, (position + 1) as usize);
        }
    }
}

/// What a [`DjP8Provider`] holds.
pub struct DjState {
    /// The position of each knob, by [`Knob::index`].
    pub knobs: Seq<u8>,
    /// Whether each button is down, by [`Button::index`].
    pub buttons: Seq<bool>,
    /// The tap tempo of the left deck.
    pub left: TempoModel,
    /// The tap tempo of the right deck.
    pub right: TempoModel,
}

impl DjState {
    /// There is one entry for every knob and every button, and both tempos
    /// are well formed.
    pub open spec fn wf(self) -> bool {
        &&& self.knobs.len() == KNOBS
        &&& self.buttons.len() == BUTTONS
        &&& self.left.wf()
        &&& self.right.wf()
    }

    /// The state of a controller that has sent nothing.
    pub open spec fn fresh() -> DjState {
        DjState {
            knobs: Seq::new(KNOBS as nat, |i: int| 0u8),
            buttons: Seq::new(BUTTONS as nat, |i: int| false),
            left: TempoModel::fresh(),
            right: TempoModel::fresh(),
        }
    }

    /// The tap tempo of `deck`.
    pub open spec fn tempo(self, deck: Deck) -> TempoModel {
        match deck {
            Deck::Left => self.left,
            Deck::Right => self.right,
        }
    }

    /// Whether `button` is down.
    pub open spec fn is_down(self, button: Button) -> bool {
        self.buttons[button.index_spec() as int]
    }

    /// Whether putting `button` in position `down` is a rising edge.
    pub open spec fn rises(self, button: Button, down: bool) -> bool {
        down && !self.is_down(button)
    }

    /// The state once `button` is in position `down` at `now`. A rising edge
    /// of a sync button is a tap on its deck's tempo.
    pub open spec fn with_button(self, button: Button, down: bool, now: u64) -> DjState {
        let tapped = if self.rises(button, down) {
            button.taps_spec()
        } else {
            None
        };
        DjState {
            buttons: self.buttons.update(button.index_spec() as int, down),
            left: if tapped == Some(Deck::Left) {
                self.left.after_edge(now)
            } else {
                self.left
            },
            right: if tapped == Some(Deck::Right) {
                self.right.after_edge(now)
            } else {
                self.right
            },
            ..self
        }
    }

    /// The state after one event received at `now`.
    ///
    /// A control change sets the knob that its number moves. A note-on puts
    /// the button that its note stands for down, or up if its velocity is 0;
    /// a note-off puts it up. Numbers that stand for nothing change nothing.
    pub open spec fn applied(self, message: Message, now: u64) -> DjState {
        match message {
            Message::ControlChange { control, value } => match Knob::for_control_spec(control) {
                Some(knob) => DjState {
                    knobs: self.knobs.update(knob.index_spec() as int, value),
                    ..self
                },
                None => self,
            },
            Message::NoteOn { note, velocity } => match Button::for_note_spec(note) {
                Some(button) => self.with_button(button, velocity != 0, now),
                None => self,
            },
            Message::NoteOff { note } => match Button::for_note_spec(note) {
                Some(button) => self.with_button(button, false, now),
                None => self,
            },
        }
    }

    /// The state after one wire frame received at `now`.
    pub open spec fn received(self, frame: Seq<u8>, now: u64) -> DjState {
        match frame_message(frame) {
            Some(message) => self.applied(message, now),
            None => self,
        }
    }

    /// The state after a run of frames, taken first to last, all at `now`.
    pub open spec fn drained(self, frames: Seq<Seq<u8>>, now: u64) -> DjState
        decreases frames.len(),
    {
        if frames.len() == 0 {
            self
        } else {
            self.drained(frames.drop_last(), now).received(frames.last(), now)
        }
    }

    /// The state after the staleness sweep of both tempos at `now`.
    pub open spec fn swept(self, now: u64) -> DjState {
        DjState { left: self.left.swept(now), right: self.right.swept(now), ..self }
    }

    /// The state after one poll at `now`: the sweep, then the frames.
    pub open spec fn polled(self, frames: Seq<Seq<u8>>, now: u64) -> DjState {
        self.swept(now).drained(frames, now)
    }

    /// What `field` reads: a tempo in beats per minute, a knob's position as
    /// a fraction of its full turn, or whether a button is down.
    pub open spec fn read(self, field: Field) -> ValueModel {
        match field {
            Field::Bpm(deck) => ValueModel::Ratio(self.tempo(deck).bpm()),
            Field::Knob(knob) => ValueModel::Ratio(
                Ratio {
                    numerator: self.knobs[knob.index_spec() as int] as u64,
                    denominator: KNOB_MAX,
                },
            ),
            Field::Button(button) => ValueModel::Bool(self.is_down(button)),
        }
    }

    /// The answer to the query `name`: what the field of that name reads.
    pub open spec fn answer(self, name: Seq<char>) -> Option<ValueModel> {
        match Field::named_spec(name) {
            Some(field) => Some(self.read(field)),
            None => None,
        }
    }

    /// Every name that the provider lists is answered, with what its field
    /// reads.
    pub proof fn listed_names_are_answered(self, position: usize)
        requires
            position < FIELDS,
        ensures
            self.answer(Field::at_spec(position).label()) == Some(
                self.read(Field::at_spec(position)),
            ),
    {
        Field::at_spec(position).found_by_its_name();
    }

    /// Events, frames and sweeps keep the state well formed.
    pub proof fn steps_keep_wf(self, message: Message, frame: Seq<u8>, now: u64)
        requires
            self.wf(),
        ensures
            self.applied(message, now).wf(),
            self.received(frame, now).wf(),
            self.swept(now).wf(),
    {
        self.left.steps_keep_wf(now);
        self.right.steps_keep_wf(now);
    }

    /// A run of frames keeps the state well formed.
    pub proof fn drained_keeps_wf(self, frames: Seq<Seq<u8>>, now: u64)
        requires
            self.wf(),
        ensures
            self.drained(frames, now).wf(),
        decreases frames.len(),
    {
        if frames.len() > 0 {
            self.drained_keeps_wf(frames.drop_last(), now);
            self.drained(frames.drop_last(), now).steps_keep_wf(
                Message::NoteOff { note: 0 },
                frames.last(),
                now,
            );
        }
    }

    /// Debounce: while a button is held, a further note-on with a positive
    /// velocity changes nothing; a held sync button taps no tempo.
    pub proof fn held_note_on_changes_nothing(self, note: usize, first: u8, second: u8, now: u64)
        requires
            self.wf(),
            first > 0,
            second > 0,
        ensures
            self.applied(Message::NoteOn { note, velocity: first }, now).applied(
                Message::NoteOn { note, velocity: second },
                now,
            ) == self.applied(Message::NoteOn { note, velocity: first }, now),
    {
        let once = self.applied(Message::NoteOn { note, velocity: first }, now);
        let twice = once.applied(Message::NoteOn { note, velocity: second }, now);
        assert(twice.buttons =~= once.buttons);
    }

    /// A note-on with velocity 0 is a note-off: both leave the same state.
    pub proof fn silent_note_on_is_note_off(self, note: usize, now: u64)
        ensures
            self.applied(Message::NoteOn { note, velocity: 0 }, now) == self.applied(
                Message::NoteOff { note },
                now,
            ),
    {
    }

    /// Replaying an event that was just applied changes nothing.
    pub proof fn replay_changes_nothing(self, message: Message, now: u64)
        requires
            self.wf(),
        ensures
            self.applied(message, now).applied(message, now) == self.applied(message, now),
    {
        let once = self.applied(message, now);
        let twice = once.applied(message, now);
        assert(twice.buttons =~= once.buttons);
        assert(twice.knobs =~= once.knobs);
    }

    /// A press of a sync button that was up taps its deck: the tempo of that
    /// deck takes the edge, and the other deck's tempo stays.
    pub proof fn sync_press_taps_its_deck(self, note: usize, velocity: u8, now: u64)
        requires
            self.wf(),
            velocity > 0,
            Button::for_note_spec(note) is Some,
            Button::for_note_spec(note).unwrap().taps_spec() is Some,
            !self.is_down(Button::for_note_spec(note).unwrap()),
        ensures
            ({
                let deck = Button::for_note_spec(note).unwrap().taps_spec().unwrap();
                let after = self.applied(Message::NoteOn { note, velocity }, now);
                let other = match deck {
                    Deck::Left => Deck::Right,
                    Deck::Right => Deck::Left,
                };
                &&& after.tempo(deck) == self.tempo(deck).after_edge(now)
                &&& after.tempo(other) == self.tempo(other)
            }),
    {
    }
}

/// The fragment by which the controller's port is known.
pub open spec fn port_marker() -> Seq<char> {
    "P8"@
}

/// The state fed by the DJ controller.
pub struct DjP8Provider {
    knobs: [u8; KNOBS],
    buttons: [bool; BUTTONS],
    left: Tempo,
    right: Tempo,
}

impl View for DjP8Provider {
    type V = DjState;

    closed spec fn view(&self) -> DjState {
        DjState {
            knobs: self.knobs@,
            buttons: self.buttons@,
            left: self.left@,
            right: self.right@,
        }
    }
}

impl DjP8Provider {
    /// Picks the first of `ports` whose name contains the controller's
    /// marker and returns a provider that has received nothing, with the
    /// index of that port; nothing when no port matches.
    pub fn new(ports: &Vec<String>) -> (r: Option<(DjP8Provider, usize)>)
        ensures
            match r {
                Some((provider, index)) => {
                    &&& is_first_match(port_names(ports@), port_marker(), index as int)
                    &&& provider@ == DjState::fresh()
                },
                None => no_match(port_names(ports@), port_marker()),
            },
    {
        match select_port(ports, "P8") {
            Some(index) => Some((DjP8Provider::unconnected(), index)),
            None => None,
        }
    }

    /// A provider that has received nothing.
    pub fn unconnected() -> (r: DjP8Provider)
        ensures
            r@ == DjState::fresh(),
            r@.wf(),
    {
        let knobs = [0u8;KNOBS];
        let buttons = [false;BUTTONS];
        assert(knobs@ =~= DjState::fresh().knobs);
        assert(buttons@ =~= DjState::fresh().buttons);
        DjP8Provider { knobs, buttons, left: Tempo::new(), right: Tempo::new() }
    }

    /// Accepts a name and ignores it: the names of this provider are fixed.
    pub fn set_name(&mut self, _name: &str)
        ensures
            final(self)@ == old(self)@,
    {
    }

    /// The names that this provider answers, in the order of [`Field::at`].
    pub fn provides(&self) -> (r: Vec<String>)
        ensures
            r@.len() == FIELDS,
            forall|i: int| 0 <= i < FIELDS ==> (#[trigger] r@[i])@ == Field::at_spec(i as usize).label(),
    {
        let mut names: Vec<String> = Vec::new();
        let mut position: usize = 0;
        while position < FIELDS
            invariant
                position <= FIELDS,
                names@.len() == position,
                forall|i: int|
                    0 <= i < position ==> (#[trigger] names@[i])@ == Field::at_spec(
                        i as usize,
                    ).label(),
            decreases FIELDS - position,
        {
            names.push(String::from_str(Field::at(position).name()));
            position += 1;
        }
        names
    }

    /// Puts `button` in position `down` at `now`.
    fn press(&mut self, button: Button, down: bool, now: u64)
        ensures
            final(self)@ == old(self)@.with_button(button, down, now),
    {
        let index = button.index();
        let rising = down && !self.buttons[index];
        self.buttons[index] = down;
        if rising {
            match button.taps() {
                Some(Deck::Left) => {
                    let _ = self.left.on_sync_edge(now);
                },
                Some(Deck::Right) => {
                    let _ = self.right.on_sync_edge(now);
                },
                None => {},
            }
        }
    }

    /// Applies one event received at `now`.
    pub fn apply(&mut self, message: Message, now: u64)
        ensures
            final(self)@ == old(self)@.applied(message, now),
    {
        match message {
            Message::ControlChange { control, value } => {
                match Knob::for_control(control) {
                    Some(knob) => {
                        let index = knob.index();
                        self.knobs[index] = value;
                    },
                    None => {},
                }
            },
            Message::NoteOn { note, velocity } => {
                match Button::for_note(note) {
                    Some(button) => self.press(button, velocity != 0, now),
                    None => {},
                }
            },
            Message::NoteOff { note } => {
                match Button::for_note(note) {
                    Some(button) => self.press(button, false, now),
                    None => {},
                }
            },
        }
    }

    /// Takes one wire frame received at `now`: applies the event it carries,
    /// and drops a frame that is empty, malformed or of a kind that is not
    /// acted on.
    pub fn receive(&mut self, frame: &[u8], now: u64)
        ensures
            final(self)@ == old(self)@.received(frame@, now),
    {
        if frame.len() == 0 {
            return ;
        }
        match decode_frame(frame) {
            Some(message) => self.apply(message, now),
            None => {},
        }
    }

    /// The staleness sweep of both tempos at `now`.
    pub fn sweep(&mut self, now: u64)
        ensures
            final(self)@ == old(self)@.swept(now),
    {
        self.left.sweep(now);
        self.right.sweep(now);
    }

    /// One poll at `now`: sweeps both tempos, then takes all the frames that
    /// were buffered since the last poll, first to last.
    pub fn drain_and_apply(&mut self, frames: &Vec<Vec<u8>>, now: u64)
        ensures
            final(self)@ == old(self)@.polled(frame_bytes(frames@), now),
    {
        self.sweep(now);
        let ghost all = frame_bytes(frames@);
        let ghost swept = self@;
        let mut i: usize = 0;
        while i < frames.len()
            invariant
                i <= frames@.len(),
                all == frame_bytes(frames@),
                self@ == swept.drained(all.subrange(0, i as int), now),
            decreases frames@.len() - i,
        {
            self.receive(frames[i].as_slice(), now);
            proof {
                let next = all.subrange(0, i + 1);
                assert(next.drop_last() =~= all.subrange(0, i as int));
                assert(next.last() == frames@[i as int]@);
            }
            i += 1;
        }
        assert(all.subrange(0, i as int) =~= all);
    }

    /// What `field` reads in the current state.
    pub fn read(&self, field: Field) -> (r: Value)
        ensures
            r@ == self@.read(field),
    {
        match field {
            Field::Bpm(Deck::Left) => Value::Ratio(self.left.bpm()),
            Field::Bpm(Deck::Right) => Value::Ratio(self.right.bpm()),
            Field::Knob(knob) => Value::Ratio(
                Ratio { numerator: self.knobs[knob.index()] as u64, denominator: KNOB_MAX },
            ),
            Field::Button(button) => Value::Bool(self.buttons[button.index()]),
        }
    }

    /// Answers the query `uniform_name` from the current state.
    pub fn get(&self, uniform_name: &str) -> (r: Option<Value>)
        ensures
            answers(r, self@.answer(uniform_name@)),
    {
        match Field::named(uniform_name) {
            Some(field) => Some(self.read(field)),
            None => None,
        }
    }
}

} // verus!
