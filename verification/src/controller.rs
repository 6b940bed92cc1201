//! The controller port: eight buttons behind a strobed shift register.

use vstd::prelude::*;

verus! {

/// Number of buttons on a controller: A, B, Select, Start, Up, Down, Left, Right.
pub const BUTTON_COUNT: u8 = 8;

/// The state of the shift register, as mathematics sees it.
pub struct ShiftRegister {
    /// Which of the eight buttons are held down, by button number.
    pub buttons: Seq<bool>,
    /// The button that the next read presents; 8 once all have been read.
    pub cursor: nat,
    /// Whether the strobe latch is asserted.
    pub strobe: bool,
}

impl ShiftRegister {
    /// What holds of every state the register can be in: eight buttons, a
    /// cursor of at most 8, and a cursor pinned to 0 while the strobe is on.
    pub open spec fn wf(self) -> bool {
        &&& self.buttons.len() == BUTTON_COUNT
        &&& self.cursor <= BUTTON_COUNT
        &&& self.strobe ==> self.cursor == 0
    }

    /// The register at attach: no button held, cursor 0, strobe off.
    pub open spec fn power_on() -> Self {
        ShiftRegister { buttons: Seq::new(BUTTON_COUNT as nat, |i: int| false), cursor: 0, strobe: false }
    }

    /// The bit for button `button`: 1 if it is held, 0 if it is not or if there
    /// is no such button.
    pub open spec fn bit(self, button: int) -> u8 {
        if 0 <= button < BUTTON_COUNT && self.buttons[button] {
            1
        } else {
            0
        }
    }

    /// The bit that the next read returns.
    pub open spec fn output(self) -> u8 {
        self.bit(self.cursor as int)
    }

    /// The register after one read: the cursor is back at 0 if the strobe is
    /// on, and otherwise one further, stopping at 8.
    pub open spec fn shifted(self) -> Self {
        ShiftRegister {
            cursor: if self.strobe {
                0
            } else if self.cursor < BUTTON_COUNT {
                self.cursor + 1
            } else {
                BUTTON_COUNT as nat
            },
            ..self
        }
    }

    /// The register after the strobe latch is set to `on`.
    pub open spec fn strobed(self, on: bool) -> Self {
        ShiftRegister {
            strobe: on,
            cursor: if on {
                0
            } else {
                self.cursor
            },
            ..self
        }
    }

    /// The register after button `button` goes down.
    pub open spec fn pressed(self, button: int) -> Self {
        ShiftRegister { buttons: self.buttons.update(button, true), ..self }
    }

    /// The register after button `button` comes up.
    pub open spec fn released(self, button: int) -> Self {
        ShiftRegister { buttons: self.buttons.update(button, false), ..self }
    }

    /// The register after `count` reads.
    pub open spec fn shifted_by(self, count: nat) -> Self
        decreases count,
    {
        if count == 0 {
            self
        } else {
            self.shifted().shifted_by((count - 1) as nat)
        }
    }

    /// The bits that the next `count` reads return, in order.
    pub open spec fn stream(self, count: nat) -> Seq<u8> {
        Seq::new(count, |i: int| self.shifted_by(i as nat).output())
    }

    /// Reading keeps the register well formed and never touches the buttons
    /// or the strobe.
    pub proof fn lemma_shifted_by(self, count: nat)
        requires
            self.wf(),
        ensures
            self.shifted_by(count).wf(),
            self.shifted_by(count).buttons == self.buttons,
            self.shifted_by(count).strobe == self.strobe,
            self.shifted_by(count).cursor == if self.strobe {
                0
            } else if self.cursor + count < BUTTON_COUNT {
                self.cursor + count
            } else {
                BUTTON_COUNT as nat
            },
        decreases count,
    {
        if count > 0 {
            self.shifted().lemma_shifted_by((count - 1) as nat);
        }
    }

    /// A register on which nothing was ever pressed reads 0, however often it
    /// is read.
    pub proof fn law_power_on_reads_zero(count: nat)
        ensures
            Self::power_on().wf(),
            Self::power_on().stream(count) == Seq::new(count, |i: int| 0u8),
    {
        let start = Self::power_on();
        assert forall|i: int| 0 <= i < count implies start.stream(count)[i] == 0u8 by {
            start.lemma_shifted_by(i as nat);
        }
    }

    /// While the strobe is on, every read returns the bit of button 0, however
    /// often the register is read.
    pub proof fn law_strobe_pins_first_button(self, count: nat)
        requires
            self.wf(),
        ensures
            self.strobed(true).stream(count) == Seq::new(count, |i: int| self.bit(0)),
    {
        let held = self.strobed(true);
        assert forall|i: int| 0 <= i < count implies held.stream(count)[i] == self.bit(0) by {
            held.lemma_shifted_by(i as nat);
        }
    }

    /// After the strobe is released, the first eight reads return the buttons
    /// in order and every later read returns 0.
    pub proof fn law_release_serialises_buttons(self, count: nat)
        requires
            self.wf(),
        ensures
            self.strobed(true).strobed(false).stream(count) == Seq::new(
                count,
                |i: int| self.bit(i),
            ),
    {
        let armed = self.strobed(true).strobed(false);
        assert forall|i: int| 0 <= i < count implies armed.stream(count)[i] == self.bit(i) by {
            armed.lemma_shifted_by(i as nat);
        }
    }

    /// With the strobe off, the reads return the buttons from the cursor on,
    /// then 0: a read never repeats or skips a button.
    pub proof fn law_stream_follows_cursor(self, count: nat)
        requires
            self.wf(),
            !self.strobe,
        ensures
            self.stream(count) == Seq::new(count, |i: int| self.bit(self.cursor + i)),
    {
        assert forall|i: int| 0 <= i < count implies self.stream(count)[i] == self.bit(
            self.cursor + i,
        ) by {
            self.lemma_shifted_by(i as nat);
        }
    }

    /// With the strobe off, a button that the cursor has already passed can go
    /// down or come up without any effect on the reads that follow: the change
    /// shows only after the next strobe.
    pub proof fn law_passed_button_is_silent(self, button: int, count: nat)
        requires
            self.wf(),
            !self.strobe,
            0 <= button < self.cursor,
        ensures
            self.pressed(button).stream(count) == self.stream(count),
            self.released(button).stream(count) == self.stream(count),
    {
        self.law_stream_follows_cursor(count);
        self.pressed(button).law_stream_follows_cursor(count);
        self.released(button).law_stream_follows_cursor(count);
    }

    /// A press or a release changes the bit of its own button and of no other,
    /// and moves neither the cursor nor the strobe.
    pub proof fn law_press_touches_one_button(self, button: int, other: int)
        requires
            self.wf(),
            0 <= button < BUTTON_COUNT,
        ensures
            self.pressed(button).wf(),
            self.released(button).wf(),
            self.pressed(button).bit(button) == 1,
            self.released(button).bit(button) == 0,
            other != button ==> self.pressed(button).bit(other) == self.bit(other),
            other != button ==> self.released(button).bit(other) == self.bit(other),
            self.pressed(button).cursor == self.cursor,
            self.released(button).cursor == self.cursor,
            self.pressed(button).strobe == self.strobe,
            self.released(button).strobe == self.strobe,
    {
    }
}

/// Whether bit `button` of `value` is set.
pub open spec fn bit_is_set(value: u8, button: u8) -> bool {
    (value >> button) & 1 == 1
}

/// A controller on the console's peripheral port.
pub struct Controller {
    // A, B, Select, Start, Up, Down, Left, Right
    value: u8,
    index: u8,
    strobe: bool,
}

impl View for Controller {
    type V = ShiftRegister;

    closed spec fn view(&self) -> ShiftRegister {
        ShiftRegister {
            buttons: Seq::new(BUTTON_COUNT as nat, |i: int| bit_is_set(self.value, i as u8)),
            cursor: self.index as nat,
            strobe: self.strobe,
        }
    }
}

impl Controller {
    #[verifier::type_invariant]
    spec fn inv(self) -> bool {
        self.index <= BUTTON_COUNT && (self.strobe ==> self.index == 0)
    }

    /// A controller as it is at attach: no button held, cursor 0, strobe off.
    pub fn new() -> (controller: Self)
        ensures
            controller@ == ShiftRegister::power_on(),
    {
        let controller = Controller { value: 0, index: 0, strobe: false };
        proof {
            assert forall|i: u8| i < 8 implies !bit_is_set(0u8, i) by {
                assert((0u8 >> i) & 1 == 0) by (bit_vector);
            }
            assert(controller@.buttons =~= ShiftRegister::power_on().buttons);
        }
        controller
    }

    /// The position of the read cursor: the button that the next read
    /// presents, or 8 once all have been read.
    pub fn index(&self) -> (index: u8)
        ensures
            index == self@.cursor,
            index <= BUTTON_COUNT,
    {
        proof {
            use_type_invariant(self);
        }
        self.index
    }

    /// Sets the strobe latch. Asserting it puts the cursor back to 0 at once.
    pub fn write_strobe(&mut self, val: bool)
        ensures
            final(self)@ == old(self)@.strobed(val),
            final(self)@.wf(),
    {
        proof {
            use_type_invariant(&*self);
        }
        if val {
            self.index = 0;
        }
        self.strobe = val;
    }

    /// Reads the next bit: that of the button under the cursor, or 0 once all
    /// eight have been read. The cursor then moves on, unless the strobe holds
    /// it at 0.
    pub fn read_value(&mut self) -> (bit: u8)
        ensures
            bit == old(self)@.output(),
            final(self)@ == old(self)@.shifted(),
            final(self)@.wf(),
    {
        proof {
            use_type_invariant(&*self);
        }
        let value = self.value;
        let index = self.index;
        let bit: u8 = if index < 8 {
            assert((value >> index) & 1 == 1 || (value >> index) & 1 == 0) by (bit_vector);
            (value >> index) & 0x01
        } else {
            0
        };
        if !self.strobe && index < 8 {
            self.index = index + 1;
        }
        bit
    }

    /// Button `index` goes down. Neither the cursor nor the strobe moves.
    pub fn press_button(&mut self, index: u8)
        requires
            index < BUTTON_COUNT,
        ensures
            final(self)@ == old(self)@.pressed(index as int),
            final(self)@.wf(),
    {
        proof {
            use_type_invariant(&*self);
        }
        let before = self.value;
        self.value = before | (1u8 << index);
        proof {
            let after = self.value;
            assert forall|i: u8| i < 8 implies bit_is_set(after, i) == (i == index || bit_is_set(
                before,
                i,
            )) by {
                assert(((before | (1u8 << index)) >> i) & 1 == 1 <==> (i == index || (before >> i)
                    & 1 == 1)) by (bit_vector)
                    requires
                        i < 8,
                        index < 8,
                ;
            }
            assert(self@.buttons =~= old(self)@.pressed(index as int).buttons);
        }
    }

    /// Button `index` comes up. Neither the cursor nor the strobe moves.
    pub fn release_button(&mut self, index: u8)
        requires
            index < BUTTON_COUNT,
        ensures
            final(self)@ == old(self)@.released(index as int),
            final(self)@.wf(),
    {
        proof {
            use_type_invariant(&*self);
        }
        let before = self.value;
        self.value = before & !(1u8 << index);
        proof {
            let after = self.value;
            assert forall|i: u8| i < 8 implies bit_is_set(after, i) == (i != index && bit_is_set(
                before,
                i,
            )) by {
                assert(((before & !(1u8 << index)) >> i) & 1 == 1 <==> (i != index && (before >> i)
                    & 1 == 1)) by (bit_vector)
                    requires
                        i < 8,
                        index < 8,
                ;
            }
            assert(self@.buttons =~= old(self)@.released(index as int).buttons);
        }
    }
}

impl Default for Controller {
    fn default() -> (controller: Self)
        ensures
            controller@ == ShiftRegister::power_on(),
    {
        Controller::new()
    }
}

} // verus!
