//! The display and its operations.
//!
//! A `Display` exists only after the power-on handshake has run to its end.
//! Each operation yields the [`Transaction`] whose plan is the operation's
//! exact list of steps.
use vstd::prelude::*;
use vstd::slice::slice_to_vec;
use crate::command::valid_coordinate;
use crate::consts::{BACKLIGHT_ADDRESS, CONTROLLER_ADDRESS, LINE_ONE, LINE_TWO};
use crate::sequence::{
    char_ops, clear_ops, colour_ops, cursor_ops, handshake_ops, line_ops, push_char, push_clear,
    push_colour, push_line, push_string, string_ops, text_ops, text_steps,
};
use crate::step::{append, command_step, ops_of, Op, Step};
use crate::transaction::{Error, Progress, Transaction};

verus! {

/// A display that has been through its power-on handshake.
#[derive(Debug)]
pub struct Display {
    controller_address: u8,
    backlight_address: u8,
}

/// An operation that has just been started: nothing done yet, `plan` ahead.
pub open spec fn fresh<E>(p: Progress<E>, plan: Seq<Op>) -> bool {
    &&& p.inv()
    &&& p.plan == plan
    &&& p.completed == 0
    &&& p.failure is None
    &&& !p.handshake
}

impl Display {
    /// The addresses are those of the two chips, from the handshake on.
    #[verifier::type_invariant]
    spec fn addresses_fixed(&self) -> bool {
        self.controller_address == 0x3E && self.backlight_address == 0x60
    }

    /// The controller at 0x3E and the backlight chip at 0x60. This holds of
    /// every display: the addresses are set once, by the handshake, and no
    /// operation changes them.
    pub open spec fn at_fixed_addresses(&self) -> bool {
        self.controller() == 0x3E && self.backlight() == 0x60
    }

    /// Bus address of the character controller.
    pub closed spec fn controller(&self) -> u8 {
        self.controller_address
    }

    /// Bus address of the backlight chip.
    pub closed spec fn backlight(&self) -> u8 {
        self.backlight_address
    }

    /// Makes the display from its finished power-on handshake. There is a
    /// display exactly where every step of the handshake was performed;
    /// where one failed, the transport's error comes back instead.
    pub fn new<E>(handshake: Transaction<E>) -> (r: Result<Display, Error<E>>)
        requires
            handshake@.handshake,
            !handshake@.active(),
        ensures
            r is Ok <==> handshake@.failure is None,
            r matches Ok(d) ==> {
                &&& d.at_fixed_addresses()
                &&& handshake@.issued() == handshake_ops(0x3E, 0x60)
            },
            r matches Err(e) ==> Err::<(), Error<E>>(e) == handshake@.result(),
    {
        match handshake.finish() {
            Ok(_) => Ok(
                Display {
                    controller_address: CONTROLLER_ADDRESS,
                    backlight_address: BACKLIGHT_ADDRESS,
                },
            ),
            Err(e) => Err(e),
        }
    }

    /// Bus address of the character controller.
    pub fn controller_address(&self) -> (address: u8)
        ensures
            self.at_fixed_addresses(),
            address == self.controller(),
    {
        proof {
            use_type_invariant(self);
        }
        self.controller_address
    }

    /// Bus address of the backlight chip.
    pub fn backlight_address(&self) -> (address: u8)
        ensures
            self.at_fixed_addresses(),
            address == self.backlight(),
    {
        proof {
            use_type_invariant(self);
        }
        self.backlight_address
    }

    /// A raw write of `bytes` to the device at `address`, passed through as it
    /// is. Nothing checks the address or the bytes: a wrong write can leave
    /// either chip in a state that only a power cycle mends.
    pub fn write_data<E>(&self, address: u8, bytes: &[u8]) -> (t: Transaction<E>)
        ensures
            self.at_fixed_addresses(),
            fresh(t@, seq![Op::Write { address, payload: bytes@ }]),
    {
        proof {
            use_type_invariant(self);
        }
        let mut steps: Vec<Step> = Vec::new();
        let payload = slice_to_vec(bytes);
        append(&mut steps, Step::Write { address, payload });
        proof {
            assert(ops_of(steps@) =~= seq![Op::Write { address, payload: bytes@ }]);
        }
        Transaction::begin(steps)
    }

    /// The characters of `string` at the cursor, one after the other. Nothing
    /// keeps the string within the line.
    pub fn write_string<E>(&self, string: &str) -> (t: Transaction<E>)
        ensures
            self.at_fixed_addresses(),
            fresh(t@, string_ops(self.controller(), string@)),
    {
        proof {
            use_type_invariant(self);
        }
        let mut steps: Vec<Step> = Vec::new();
        push_string(&mut steps, self.controller_address, string);
        proof {
            assert(ops_of(steps@) =~= string_ops(self.controller(), string@));
        }
        Transaction::begin(steps)
    }

    /// One character at the cursor: the low eight bits of its code point as
    /// data, then five milliseconds.
    pub fn write_char<E>(&self, character: char) -> (t: Transaction<E>)
        ensures
            self.at_fixed_addresses(),
            fresh(t@, char_ops(self.controller(), character)),
    {
        proof {
            use_type_invariant(self);
        }
        let mut steps: Vec<Step> = Vec::new();
        push_char(&mut steps, self.controller_address, character);
        proof {
            assert(ops_of(steps@) =~= char_ops(self.controller(), character));
        }
        Transaction::begin(steps)
    }

    /// Clears the display: the clear command, then five milliseconds.
    pub fn clear<E>(&self) -> (t: Transaction<E>)
        ensures
            self.at_fixed_addresses(),
            fresh(t@, clear_ops(self.controller())),
    {
        proof {
            use_type_invariant(self);
        }
        let mut steps: Vec<Step> = Vec::new();
        push_clear(&mut steps, self.controller_address);
        proof {
            assert(ops_of(steps@) =~= clear_ops(self.controller()));
        }
        Transaction::begin(steps)
    }

    /// Sets the backlight: the duty of red, of green and of blue, as three
    /// writes of their own. Where one of them fails the earlier ones have
    /// taken effect, and the colour is to be set anew.
    pub fn backlight_colour<E>(&self, r: u8, g: u8, b: u8) -> (t: Transaction<E>)
        ensures
            self.at_fixed_addresses(),
            fresh(t@, colour_ops(self.backlight(), r, g, b)),
    {
        proof {
            use_type_invariant(self);
        }
        let mut steps: Vec<Step> = Vec::new();
        push_colour(&mut steps, self.backlight_address, r, g, b);
        proof {
            assert(ops_of(steps@) =~= colour_ops(self.backlight(), r, g, b));
        }
        Transaction::begin(steps)
    }

    /// Puts the cursor at the start of the first line, then writes `string`
    /// as [`Display::write_string`] does.
    pub fn write_line_one<E>(&self, string: &str) -> (t: Transaction<E>)
        ensures
            self.at_fixed_addresses(),
            fresh(t@, line_ops(self.controller(), 0x80, string@)),
    {
        proof {
            use_type_invariant(self);
        }
        let mut steps: Vec<Step> = Vec::new();
        push_line(&mut steps, self.controller_address, LINE_ONE, string);
        proof {
            assert(ops_of(steps@) =~= line_ops(self.controller(), 0x80, string@));
        }
        Transaction::begin(steps)
    }

    /// Puts the cursor at the start of the second line, then writes `string`
    /// as [`Display::write_string`] does.
    pub fn write_line_two<E>(&self, string: &str) -> (t: Transaction<E>)
        ensures
            self.at_fixed_addresses(),
            fresh(t@, line_ops(self.controller(), 0xC0, string@)),
    {
        proof {
            use_type_invariant(self);
        }
        let mut steps: Vec<Step> = Vec::new();
        push_line(&mut steps, self.controller_address, LINE_TWO, string);
        proof {
            assert(ops_of(steps@) =~= line_ops(self.controller(), 0xC0, string@));
        }
        Transaction::begin(steps)
    }

    /// Puts the cursor at `column` of `row`. A row other than 0 and 1, or a
    /// column above 15, is refused, and nothing is to be written then.
    pub fn set_cursor<E>(&self, row: u8, column: u8) -> (r: Result<Transaction<E>, Error<E>>)
        ensures
            self.at_fixed_addresses(),
            r is Ok <==> valid_coordinate(row, column),
            r matches Ok(t) ==> fresh(t@, cursor_ops(self.controller(), row, column)),
            r matches Err(e) ==> e is InvalidCoordinate,
    {
        proof {
            use_type_invariant(self);
        }
        if column > 15 || row > 1 {
            return Err(Error::InvalidCoordinate);
        }
        let base: u8 = if row == 0 { LINE_ONE } else { LINE_TWO };
        let mut steps: Vec<Step> = Vec::new();
        append(&mut steps, command_step(self.controller_address, column | base));
        proof {
            assert(column | base == base | column) by (bit_vector);
            assert(ops_of(steps@) =~= cursor_ops(self.controller(), row, column));
        }
        Ok(Transaction::begin(steps))
    }

    /// Writes `string` over both lines: up to sixteen characters on the first
    /// line, the rest from the start of the second. Words are not kept whole.
    pub fn write_text<E>(&self, string: &str) -> (t: Transaction<E>)
        ensures
            self.at_fixed_addresses(),
            fresh(t@, text_ops(self.controller(), string@)),
    {
        proof {
            use_type_invariant(self);
        }
        Transaction::begin(text_steps(self.controller_address, string))
    }
}

} // verus!
