//! A generic controller: one edge-state slot and one continuous value for
//! every note and control number, answered by indexed and aggregate names.
use crate::message::{decode_frame, frame_message, Message};
use crate::ports::{is_first_match, no_match, port_names, select_port, PortNotFound};
use crate::slot::Slot;
use crate::tempo::MICROS_PER_SECOND;
use crate::text::{
    chars_of, index_in_name, is_digit, is_joined, named_index, run_end, run_end_in_bounds,
    run_end_skips, starts_with, unsigned_part, written_index,
};
use crate::value::{answers, Ratio, Value, ValueModel};
use vstd::prelude::*;

verus! {

/// The number of slots and of continuous values that a provider keeps.
pub const TABLE_SIZE: usize = 1024;

/// The byte sequences that `frames` holds.
pub open spec fn frame_bytes(frames: Seq<Vec<u8>>) -> Seq<Seq<u8>> {
    frames.map_values(|frame: Vec<u8>| frame@)
}

/// What a [`MidiProvider`] holds.
pub struct MidiState {
    /// The name that scopes the aggregate queries.
    pub name: Seq<char>,
    /// The host's time, in microseconds, when it was last set.
    pub time: u64,
    /// Edge state by note number.
    pub slots: Seq<Slot>,
    /// Last value seen by control number.
    pub values: Seq<u8>,
}

impl MidiState {
    /// Both tables have exactly [`TABLE_SIZE`] entries.
    pub open spec fn wf(self) -> bool {
        self.slots.len() == TABLE_SIZE && self.values.len() == TABLE_SIZE
    }

    /// The state of a provider called `name` that has received nothing.
    pub open spec fn fresh(name: Seq<char>) -> MidiState {
        MidiState {
            name,
            time: 0,
            slots: Seq::new(TABLE_SIZE as nat, |i: int| Slot::idle()),
            values: Seq::new(TABLE_SIZE as nat, |i: int| 0u8),
        }
    }

    /// The state after one event.
    ///
    /// A control change overwrites the value at its index. A note-on or
    /// note-off moves the slot at its index, stamped with the state's time.
    /// An event for an index outside the tables changes nothing.
    pub open spec fn applied(self, message: Message) -> MidiState {
        match message {
            Message::ControlChange { control, value } => if control < TABLE_SIZE {
                MidiState { values: self.values.update(control as int, value), ..self }
            } else {
                self
            },
            Message::NoteOn { note, velocity } => if note < TABLE_SIZE {
                MidiState {
                    slots: self.slots.update(
                        note as int,
                        self.slots[note as int].after_note_on(velocity, self.time),
                    ),
                    ..self
                }
            } else {
                self
            },
            Message::NoteOff { note } => if note < TABLE_SIZE {
                MidiState {
                    slots: self.slots.update(
                        note as int,
                        self.slots[note as int].after_note_off(self.time),
                    ),
                    ..self
                }
            } else {
                self
            },
        }
    }

    /// The state after one wire frame: that of the event it carries, and the
    /// same state if it carries none.
    pub open spec fn received(self, frame: Seq<u8>) -> MidiState {
        match frame_message(frame) {
            Some(message) => self.applied(message),
            None => self,
        }
    }

    /// The state after a run of frames, taken first to last.
    pub open spec fn drained(self, frames: Seq<Seq<u8>>) -> MidiState
        decreases frames.len(),
    {
        if frames.len() == 0 {
            self
        } else {
            self.drained(frames.drop_last()).received(frames.last())
        }
    }

    /// Which keys are down, by note number.
    pub open spec fn pressed(self) -> Seq<bool> {
        Seq::new(self.slots.len(), |i: int| self.slots[i].pressed)
    }

    /// The toggles, by note number.
    pub open spec fn toggled(self) -> Seq<bool> {
        Seq::new(self.slots.len(), |i: int| self.slots[i].toggled)
    }

    /// Whether `name` is one of the three aggregate names of this provider.
    pub open spec fn is_aggregate_name(self, name: Seq<char>) -> bool {
        name == self.name + ".pressed"@ || name == self.name + ".toggled"@ || name == self.name
            + ".values"@
    }

    /// The answer to the query `name`.
    ///
    /// A name that addresses an index below [`TABLE_SIZE`] and begins with
    /// `pressed_time`, `pressed`, `toggled` or `value` reads that index: the
    /// time of the last press in seconds, whether the key is down, its toggle,
    /// or the control's value. Failing that, the provider's name followed by
    /// `.pressed`, `.toggled` or `.values` reads a whole table. Any other
    /// name has no answer.
    pub open spec fn answer(self, name: Seq<char>) -> Option<ValueModel> {
        let index = named_index(name, TABLE_SIZE);
        if index is Some && "pressed_time"@.is_prefix_of(name) {
            Some(
                ValueModel::Ratio(
                    Ratio {
                        numerator: self.slots[index.unwrap() as int].pressed_at,
                        denominator: MICROS_PER_SECOND,
                    },
                ),
            )
        } else if index is Some && "pressed"@.is_prefix_of(name) {
            Some(ValueModel::Bool(self.slots[index.unwrap() as int].pressed))
        } else if index is Some && "toggled"@.is_prefix_of(name) {
            Some(ValueModel::Bool(self.slots[index.unwrap() as int].toggled))
        } else if index is Some && "value"@.is_prefix_of(name) {
            Some(ValueModel::Int(self.values[index.unwrap() as int] as i32))
        } else if name == self.name + ".pressed"@ {
            Some(ValueModel::BoolArray(self.pressed()))
        } else if name == self.name + ".toggled"@ {
            Some(ValueModel::BoolArray(self.toggled()))
        } else if name == self.name + ".values"@ {
            Some(ValueModel::ByteArray(self.values))
        } else {
            None
        }
    }

    /// Events and frames keep the tables at their size, and touch neither the
    /// name nor the time.
    pub proof fn steps_keep_wf(self, message: Message, frame: Seq<u8>)
        requires
            self.wf(),
        ensures
            self.applied(message).wf(),
            self.applied(message).name == self.name,
            self.applied(message).time == self.time,
            self.received(frame).wf(),
            self.received(frame).name == self.name,
            self.received(frame).time == self.time,
    {
    }

    /// A run of frames keeps the tables at their size, and touches neither
    /// the name nor the time.
    pub proof fn drained_keeps_wf(self, frames: Seq<Seq<u8>>)
        requires
            self.wf(),
        ensures
            self.drained(frames).wf(),
            self.drained(frames).name == self.name,
            self.drained(frames).time == self.time,
        decreases frames.len(),
    {
        if frames.len() > 0 {
            self.drained_keeps_wf(frames.drop_last());
            self.drained(frames.drop_last()).steps_keep_wf(
                Message::NoteOff { note: 0 },
                frames.last(),
            );
        }
    }

    /// Draining two runs one after the other is draining them joined.
    pub proof fn drained_in_two_runs(self, first: Seq<Seq<u8>>, second: Seq<Seq<u8>>)
        ensures
            self.drained(first + second) == self.drained(first).drained(second),
        decreases second.len(),
    {
        if second.len() == 0 {
            assert(first + second =~= first);
        } else {
            self.drained_in_two_runs(first, second.drop_last());
            assert((first + second).drop_last() =~= first + second.drop_last());
            assert((first + second).last() == second.last());
        }
    }

    /// Debounce: after a note-on with a positive velocity, a second one for
    /// the same note changes nothing, so the toggle flips once at most.
    pub proof fn held_note_on_changes_nothing(self, note: usize, first: u8, second: u8)
        requires
            self.wf(),
            first > 0,
            second > 0,
        ensures
            self.applied(Message::NoteOn { note, velocity: first }).applied(
                Message::NoteOn { note, velocity: second },
            ) == self.applied(Message::NoteOn { note, velocity: first }),
    {
        if note < TABLE_SIZE {
            let once = self.applied(Message::NoteOn { note, velocity: first });
            let twice = once.applied(Message::NoteOn { note, velocity: second });
            assert(twice.slots =~= once.slots);
        }
    }

    /// A note-on with velocity 0 releases a key as a note-off does: after
    /// either the same keys are down, so edges are detected alike from then
    /// on. Where the key was up the two leave the same state altogether; where
    /// it was held they differ in that key's toggle alone.
    pub proof fn silent_note_on_releases_like_note_off(self, note: usize)
        requires
            self.wf(),
        ensures
            self.applied(Message::NoteOn { note, velocity: 0 }).pressed() == self.applied(
                Message::NoteOff { note },
            ).pressed(),
            self.applied(Message::NoteOn { note, velocity: 0 }).values == self.applied(
                Message::NoteOff { note },
            ).values,
            note < TABLE_SIZE && !self.slots[note as int].pressed ==> self.applied(
                Message::NoteOn { note, velocity: 0 },
            ) == self.applied(Message::NoteOff { note }),
            note >= TABLE_SIZE ==> self.applied(Message::NoteOn { note, velocity: 0 })
                == self.applied(Message::NoteOff { note }),
    {
        let on = self.applied(Message::NoteOn { note, velocity: 0 });
        let off = self.applied(Message::NoteOff { note });
        assert(on.pressed() =~= off.pressed());
        if note < TABLE_SIZE && !self.slots[note as int].pressed {
            assert(on.slots =~= off.slots);
        }
    }

    /// Replaying an event that was just applied changes nothing: a second
    /// identical note-off, note-on or control change finds its work done.
    pub proof fn replay_changes_nothing(self, message: Message)
        requires
            self.wf(),
        ensures
            self.applied(message).applied(message) == self.applied(message),
    {
        let once = self.applied(message);
        let twice = once.applied(message);
        assert(twice.slots =~= once.slots);
        assert(twice.values =~= once.values);
    }

    /// Replaying a frame that was just received changes nothing.
    pub proof fn replayed_frame_changes_nothing(self, frame: Seq<u8>)
        requires
            self.wf(),
        ensures
            self.received(frame).received(frame) == self.received(frame),
    {
        match frame_message(frame) {
            Some(message) => self.replay_changes_nothing(message),
            None => {},
        }
    }

    /// An aggregate name of a provider whose own name holds no dot addresses
    /// no index: what follows its only dot is a word, not a number.
    proof fn aggregate_name_has_no_index(self, suffix: Seq<char>)
        requires
            forall|i: int| 0 <= i < self.name.len() ==> self.name[i] != '.',
            suffix.len() >= 2,
            suffix[0] == '.',
            suffix[1] != '.' && suffix[1] != '+' && !is_digit(suffix[1]),
        ensures
            written_index(self.name + suffix) is None,
    {
        let full = self.name + suffix;
        let n = self.name.len() as int;
        run_end_skips(full, 0, n);
        assert(full[n] == suffix[0]);
        assert(full[n + 1] == suffix[1]);
        assert(run_end(full, n) == n);
        let end = run_end(full, n + 1);
        assert(end == run_end(full, n + 2));
        run_end_in_bounds(full, n + 2);
        let segment = full.subrange(n + 1, end);
        assert(segment[0] == suffix[1]);
        assert(unsigned_part(segment) == segment);
        assert(!is_digit(segment[0]));
    }

    /// Where the provider's own name holds no dot, each of its three
    /// aggregate names reads the whole table that it names.
    pub proof fn aggregate_names_read_tables(self)
        requires
            forall|i: int| 0 <= i < self.name.len() ==> self.name[i] != '.',
        ensures
            self.answer(self.name + ".pressed"@) == Some(ValueModel::BoolArray(self.pressed())),
            self.answer(self.name + ".toggled"@) == Some(ValueModel::BoolArray(self.toggled())),
            self.answer(self.name + ".values"@) == Some(ValueModel::ByteArray(self.values)),
    {
        reveal_strlit(".pressed");
        reveal_strlit(".toggled");
        reveal_strlit(".values");
        let n = self.name.len() as int;
        self.aggregate_name_has_no_index(".pressed"@);
        self.aggregate_name_has_no_index(".toggled"@);
        self.aggregate_name_has_no_index(".values"@);
        assert((self.name + ".pressed"@)[n + 1] == 'p');
        assert((self.name + ".toggled"@)[n + 1] == 't');
        assert((self.name + ".values"@)[n + 1] == 'v');
    }

    /// A name whose index lies outside the tables reads no slot and no
    /// value: it has no answer, unless it happens to be one of the provider's
    /// own aggregate names.
    pub proof fn out_of_range_index_is_absent(self, name: Seq<char>, index: nat)
        requires
            written_index(name) == Some(index),
            index >= TABLE_SIZE,
            !self.is_aggregate_name(name),
        ensures
            self.answer(name) is None,
    {
    }
}

/// The state fed by a generic controller.
pub struct MidiProvider {
    name: String,
    time: u64,
    slots: [Slot; TABLE_SIZE],
    values: [u8; TABLE_SIZE],
}

impl View for MidiProvider {
    type V = MidiState;

    closed spec fn view(&self) -> MidiState {
        MidiState { name: self.name@, time: self.time, slots: self.slots@, values: self.values@ }
    }
}

impl MidiProvider {
    /// Picks the first of `ports` whose name contains `port_name` and
    /// returns a provider called `name` that has received nothing, with the
    /// index of that port. Fails when no port matches.
    pub fn new(name: String, port_name: &str, ports: &Vec<String>) -> (r: Result<
        (MidiProvider, usize),
        PortNotFound,
    >)
        ensures
            match r {
                Ok((provider, index)) => {
                    &&& is_first_match(port_names(ports@), port_name@, index as int)
                    &&& provider@ == MidiState::fresh(name@)
                },
                Err(error) => {
                    &&& no_match(port_names(ports@), port_name@)
                    &&& error.wanted@ == port_name@
                },
            },
    {
        match select_port(ports, port_name) {
            Some(index) => Ok((MidiProvider::unconnected(name), index)),
            None => Err(PortNotFound { wanted: String::from_str(port_name) }),
        }
    }

    /// A provider called `name` that has received nothing.
    pub fn unconnected(name: String) -> (r: MidiProvider)
        ensures
            r@ == MidiState::fresh(name@),
    {
        let idle = Slot::new();
        let slots = [idle;TABLE_SIZE];
        let values = [0u8;TABLE_SIZE];
        assert(slots@ =~= MidiState::fresh(name@).slots);
        assert(values@ =~= MidiState::fresh(name@).values);
        MidiProvider { name, time: 0, slots, values }
    }

    /// Renames the provider; the aggregate names follow.
    pub fn set_name(&mut self, name: &str)
        ensures
            final(self)@ == (MidiState { name: name@, ..old(self)@ }),
    {
        self.name = String::from_str(name);
    }

    /// Takes the host's time, in microseconds; events received from now on
    /// are stamped with it.
    pub fn set_time(&mut self, time: u64, _sync: bool)
        ensures
            final(self)@ == (MidiState { time, ..old(self)@ }),
    {
        self.time = time;
    }

    /// Accepts a property and ignores it: this provider has none.
    pub fn set_property(&mut self, _property: &str, _value: &Value)
        ensures
            final(self)@ == old(self)@,
    {
    }

    /// The names of the three aggregate queries.
    pub fn provides(&self) -> (r: Vec<String>)
        ensures
            r@.len() == 3,
            r@[0]@ == self@.name + ".pressed"@,
            r@[1]@ == self@.name + ".toggled"@,
            r@[2]@ == self@.name + ".values"@,
    {
        let mut names: Vec<String> = Vec::new();
        names.push(self.name.clone().concat(".pressed"));
        names.push(self.name.clone().concat(".toggled"));
        names.push(self.name.clone().concat(".values"));
        names
    }

    /// Applies one event.
    pub fn apply(&mut self, message: Message)
        ensures
            final(self)@ == old(self)@.applied(message),
            final(self)@.wf(),
    {
        match message {
            Message::ControlChange { control, value } => {
                if control < TABLE_SIZE {
                    self.values[control] = value;
                }
            },
            Message::NoteOn { note, velocity } => {
                if note < TABLE_SIZE {
                    let slot = self.slots[note].note_on(velocity, self.time);
                    self.slots[note] = slot;
                }
            },
            Message::NoteOff { note } => {
                if note < TABLE_SIZE {
                    let slot = self.slots[note].note_off(self.time);
                    self.slots[note] = slot;
                }
            },
        }
    }

    /// Takes one wire frame: applies the event it carries, and drops a frame
    /// that is empty, malformed or of a kind that is not acted on.
    pub fn receive(&mut self, frame: &[u8])
        ensures
            final(self)@ == old(self)@.received(frame@),
            final(self)@.wf(),
    {
        if frame.len() == 0 {
            return ;
        }
        match decode_frame(frame) {
            Some(message) => self.apply(message),
            None => {},
        }
    }

    /// Takes all the frames that were buffered since the last poll, first to
    /// last.
    pub fn drain_and_apply(&mut self, frames: &Vec<Vec<u8>>)
        ensures
            final(self)@ == old(self)@.drained(frame_bytes(frames@)),
            final(self)@.wf(),
    {
        let ghost all = frame_bytes(frames@);
        let mut i: usize = 0;
        while i < frames.len()
            invariant
                i <= frames@.len(),
                all == frame_bytes(frames@),
                self@ == old(self)@.drained(all.subrange(0, i as int)),
                self@.wf(),
            decreases frames@.len() - i,
        {
            self.receive(frames[i].as_slice());
            proof {
                let next = all.subrange(0, i + 1);
                assert(next.drop_last() =~= all.subrange(0, i as int));
                assert(next.last() == frames@[i as int]@);
            }
            i += 1;
        }
        assert(all.subrange(0, i as int) =~= all);
    }

    /// Answers the query `uniform_name` from the current state.
    pub fn get(&self, uniform_name: &str) -> (r: Option<Value>)
        ensures
            answers(r, self@.answer(uniform_name@)),
    {
        let name = chars_of(uniform_name);
        match index_in_name(&name, TABLE_SIZE) {
            Some(index) => {
                if starts_with(&name, &chars_of("pressed_time")) {
                    return Some(
                        Value::Ratio(
                            Ratio {
                                numerator: self.slots[index].pressed_at,
                                denominator: MICROS_PER_SECOND,
                            },
                        ),
                    );
                }
                if starts_with(&name, &chars_of("pressed")) {
                    return Some(Value::Bool(self.slots[index].pressed));
                }
                if starts_with(&name, &chars_of("toggled")) {
                    return Some(Value::Bool(self.slots[index].toggled));
                }
                if starts_with(&name, &chars_of("value")) {
                    return Some(Value::Int(self.values[index] as i32));
                }
            },
            None => {},
        }
        let own = chars_of(self.name.as_str());
        if is_joined(&name, &own, &chars_of(".pressed")) {
            Some(Value::BoolArray(self.all_pressed()))
        } else if is_joined(&name, &own, &chars_of(".toggled")) {
            Some(Value::BoolArray(self.all_toggled()))
        } else if is_joined(&name, &own, &chars_of(".values")) {
            Some(Value::ByteArray(self.all_values()))
        } else {
            None
        }
    }

    /// Which keys are down, by note number.
    pub fn all_pressed(&self) -> (r: Vec<bool>)
        ensures
            r@ == self@.pressed(),
    {
        let mut out: Vec<bool> = Vec::new();
        let mut i: usize = 0;
        while i < TABLE_SIZE
            invariant
                i <= TABLE_SIZE,
                out@.len() == i,
                forall|k: int| 0 <= k < i ==> out@[k] == self.slots@[k].pressed,
            decreases TABLE_SIZE - i,
        {
            out.push(self.slots[i].pressed);
            i += 1;
        }
        assert(out@ =~= self@.pressed());
        out
    }

    /// The last value seen, by control number.
    pub fn all_values(&self) -> (r: Vec<u8>)
        ensures
            r@ == self@.values,
    {
        let mut out: Vec<u8> = Vec::new();
        let mut i: usize = 0;
        while i < TABLE_SIZE
            invariant
                i <= TABLE_SIZE,
                out@.len() == i,
                forall|k: int| 0 <= k < i ==> out@[k] == self.values@[k],
            decreases TABLE_SIZE - i,
        {
            out.push(self.values[i]);
            i += 1;
        }
        assert(out@ =~= self@.values);
        out
    }

    /// The toggles, by note number.
    pub fn all_toggled(&self) -> (r: Vec<bool>)
        ensures
            r@ == self@.toggled(),
    {
        let mut out: Vec<bool> = Vec::new();
        let mut i: usize = 0;
        while i < TABLE_SIZE
            invariant
                i <= TABLE_SIZE,
                out@.len() == i,
                forall|k: int| 0 <= k < i ==> out@[k] == self.slots@[k].toggled,
            decreases TABLE_SIZE - i,
        {
            out.push(self.slots[i].toggled);
            i += 1;
        }
        assert(out@ =~= self@.toggled());
        out
    }
}

} // verus!
