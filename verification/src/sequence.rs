//! What each operation of the display consists of: the exact list of bus
//! writes and settle delays, as a mathematical sequence, and the functions
//! that build it.
use vstd::prelude::*;
use vstd::std_specs::iter::IteratorSpec;
use crate::command::{
    char_byte, cursor_byte, display_on_byte, entry_mode_byte, function_set_byte, low_byte,
    Command,
};
use crate::consts::{
    COLUMNS, LINE_ONE, LINE_TWO, REG_BLUE, REG_GREEN, REG_MODE1, REG_MODE2,
    REG_OUTPUT, REG_RED,
};
use crate::step::{
    append, command_op, command_step, data_op, data_step, delay_op, delay_step, is_command,
    ops_of, register_op, register_step, Op, Step,
};

verus! {

/// One character: its byte as data, then five milliseconds to settle.
pub open spec fn char_ops(controller: u8, c: char) -> Seq<Op> {
    seq![data_op(controller, low_byte(c)), delay_op(5)]
}

/// The characters of `s` one after the other, each as [`char_ops`] has it.
pub open spec fn string_ops(controller: u8, s: Seq<char>) -> Seq<Op>
    decreases s.len(),
{
    if s.len() == 0 {
        Seq::empty()
    } else {
        string_ops(controller, s.drop_last()) + char_ops(controller, s.last())
    }
}

/// Clearing: the clear command, then five milliseconds for it to run.
pub open spec fn clear_ops(controller: u8) -> Seq<Op> {
    seq![command_op(controller, 0x01), delay_op(5)]
}

/// The backlight colour: the duty of red, of green and of blue, in this order.
pub open spec fn colour_ops(backlight: u8, r: u8, g: u8, b: u8) -> Seq<Op> {
    seq![
        register_op(backlight, 0x04, r),
        register_op(backlight, 0x03, g),
        register_op(backlight, 0x02, b),
    ]
}

/// A line: the cursor is put at `base`, then the string follows unchecked.
pub open spec fn line_ops(controller: u8, base: u8, s: Seq<char>) -> Seq<Op> {
    seq![command_op(controller, base)] + string_ops(controller, s)
}

/// Placing the cursor at `column` of `row`: one command.
pub open spec fn cursor_ops(controller: u8, row: u8, column: u8) -> Seq<Op> {
    seq![command_op(controller, cursor_byte(row, column))]
}

/// Text over both lines. Up to sixteen characters go to the first line.
/// Of a longer text the first sixteen characters go to the first line and all
/// the others follow from the start of the second. Lengths are counted in
/// characters, not in encoded bytes.
pub open spec fn text_ops(controller: u8, s: Seq<char>) -> Seq<Op> {
    if s.len() <= 16 {
        line_ops(controller, 0x80, s)
    } else {
        line_ops(controller, 0x80, s.take(16)) + line_ops(controller, 0xC0, s.skip(16))
    }
}

/// The characters of `s` as they flow over the display. Without `wrap`, or up
/// to sixteen characters, that is the plain string. With `wrap`, a longer one
/// has the first sixteen characters, then the move to the second line, then
/// all the others.
pub open spec fn flow_ops(controller: u8, s: Seq<char>, wrap: bool) -> Seq<Op> {
    if wrap && s.len() > 16 {
        string_ops(controller, s.take(16)) + seq![command_op(controller, 0xC0)] + string_ops(
            controller,
            s.skip(16),
        )
    } else {
        string_ops(controller, s)
    }
}

/// One round of the power-on settings: entry mode and function set, each
/// followed by ten milliseconds.
pub open spec fn settle_round(controller: u8) -> Seq<Op> {
    seq![
        command_op(controller, entry_mode_byte()),
        delay_op(10),
        command_op(controller, function_set_byte()),
        delay_op(10),
    ]
}

/// The backlight chip's configuration: normal mode, group blinking, every
/// output under its own duty register.
pub open spec fn backlight_setup_ops(backlight: u8) -> Seq<Op> {
    seq![
        register_op(backlight, 0x00, 0x00),
        register_op(backlight, 0x01, 0x20),
        register_op(backlight, 0x08, 0xFF),
    ]
}

/// `rounds` rounds of the power-on settings, one after the other.
pub open spec fn settle_rounds(controller: u8, rounds: nat) -> Seq<Op>
    decreases rounds,
{
    if rounds == 0 {
        Seq::empty()
    } else {
        settle_rounds(controller, (rounds - 1) as nat) + settle_round(controller)
    }
}

/// The start of the handshake: fifty milliseconds after power-on, then the
/// settings three times over, since the chip may miss the first ones.
pub open spec fn settling_ops(controller: u8) -> Seq<Op> {
    seq![delay_op(50)] + settle_rounds(controller, 3)
}

/// The power-on handshake: the settling; display on and ten milliseconds; the
/// backlight's configuration; a clear; the backlight set to black.
pub open spec fn handshake_ops(controller: u8, backlight: u8) -> Seq<Op> {
    settling_ops(controller) + seq![command_op(controller, display_on_byte()), delay_op(10)]
        + backlight_setup_ops(backlight) + clear_ops(controller) + colour_ops(backlight, 0, 0, 0)
}

/// The string of two strings is the first one's steps, then the second's.
pub proof fn lemma_string_ops_concat(controller: u8, a: Seq<char>, b: Seq<char>)
    ensures
        string_ops(controller, a + b) == string_ops(controller, a) + string_ops(controller, b),
    decreases b.len(),
{
    if b.len() == 0 {
        assert(a + b =~= a);
        assert(string_ops(controller, a) + string_ops(controller, b) =~= string_ops(
            controller,
            a,
        ));
    } else {
        lemma_string_ops_concat(controller, a, b.drop_last());
        assert((a + b).drop_last() =~= a + b.drop_last());
        assert((a + b).last() == b.last());
        assert(string_ops(controller, a + b) =~= string_ops(controller, a) + string_ops(
            controller,
            b,
        ));
    }
}

/// A string of `n` characters takes `2 n` steps: at each even place the data
/// write of a character, at each odd place the delay after it.
pub proof fn lemma_string_ops_index(controller: u8, s: Seq<char>)
    ensures
        string_ops(controller, s).len() == 2 * s.len(),
        forall|k: int|
            0 <= k < s.len() ==> {
                &&& #[trigger] string_ops(controller, s)[2 * k] == data_op(
                    controller,
                    low_byte(s[k]),
                )
                &&& string_ops(controller, s)[2 * k + 1] == delay_op(5)
            },
    decreases s.len(),
{
    if s.len() > 0 {
        lemma_string_ops_index(controller, s.drop_last());
        let front = string_ops(controller, s.drop_last());
        let whole = string_ops(controller, s);
        assert(whole == front + char_ops(controller, s.last()));
        assert forall|k: int| 0 <= k < s.len() implies {
            &&& #[trigger] whole[2 * k] == data_op(controller, low_byte(s[k]))
            &&& whole[2 * k + 1] == delay_op(5)
        } by {
            if k < s.len() - 1 {
                assert(front[2 * k] == data_op(controller, low_byte(s.drop_last()[k])));
            }
        }
    }
}

/// No step of a string is a command: a string never moves the cursor by itself.
pub proof fn lemma_string_ops_no_command(controller: u8, s: Seq<char>, i: int)
    requires
        0 <= i < string_ops(controller, s).len(),
    ensures
        !is_command(controller, string_ops(controller, s)[i]),
{
    lemma_string_ops_index(controller, s);
    let op = string_ops(controller, s)[i];
    let k = i / 2;
    assert(op == string_ops(controller, s)[2 * k] || op == string_ops(controller, s)[2 * k + 1]);
    assert forall|cmd: u8| op != command_op(controller, cmd) by {
        if op == data_op(controller, low_byte(s[k])) {
            assert(data_op(controller, low_byte(s[k]))->payload[0] == 0x40u8);
            assert(command_op(controller, cmd)->payload[0] == 0x80u8);
        }
    }
}

/// The handshake step by step: twenty-three steps in this order.
pub proof fn lemma_handshake_listing(controller: u8, backlight: u8)
    ensures
        handshake_ops(controller, backlight) == seq![
            delay_op(50),
            command_op(controller, 0x06),
            delay_op(10),
            command_op(controller, 0x38),
            delay_op(10),
            command_op(controller, 0x06),
            delay_op(10),
            command_op(controller, 0x38),
            delay_op(10),
            command_op(controller, 0x06),
            delay_op(10),
            command_op(controller, 0x38),
            delay_op(10),
            command_op(controller, 0x0C),
            delay_op(10),
            register_op(backlight, 0x00, 0x00),
            register_op(backlight, 0x01, 0x20),
            register_op(backlight, 0x08, 0xFF),
            command_op(controller, 0x01),
            delay_op(5),
            register_op(backlight, 0x04, 0),
            register_op(backlight, 0x03, 0),
            register_op(backlight, 0x02, 0),
        ],
{
    let listing = seq![
        delay_op(50),
        command_op(controller, 0x06),
        delay_op(10),
        command_op(controller, 0x38),
        delay_op(10),
        command_op(controller, 0x06),
        delay_op(10),
        command_op(controller, 0x38),
        delay_op(10),
        command_op(controller, 0x06),
        delay_op(10),
        command_op(controller, 0x38),
        delay_op(10),
        command_op(controller, 0x0C),
        delay_op(10),
        register_op(backlight, 0x00, 0x00),
        register_op(backlight, 0x01, 0x20),
        register_op(backlight, 0x08, 0xFF),
        command_op(controller, 0x01),
        delay_op(5),
        register_op(backlight, 0x04, 0),
        register_op(backlight, 0x03, 0),
        register_op(backlight, 0x02, 0),
    ];
    reveal_with_fuel(settle_rounds, 4);
    assert(handshake_ops(controller, backlight) =~= listing);
}

/// A text of up to sixteen characters puts the cursor at the start of the
/// first line once and never moves it again: after that one command every
/// write is the data of a character, in the text's order.
pub proof fn lemma_short_text_one_line(controller: u8, s: Seq<char>)
    requires
        s.len() <= 16,
    ensures
        text_ops(controller, s).len() == 1 + 2 * s.len(),
        text_ops(controller, s)[0] == command_op(controller, 0x80),
        forall|k: int|
            0 <= k < s.len() ==> {
                &&& text_ops(controller, s)[1 + 2 * k] == data_op(
                    controller,
                    low_byte(#[trigger] s[k]),
                )
                &&& text_ops(controller, s)[2 + 2 * k] == delay_op(5)
            },
        forall|i: int|
            1 <= i < text_ops(controller, s).len() ==> !is_command(
                controller,
                #[trigger] text_ops(controller, s)[i],
            ),
{
    let body = string_ops(controller, s);
    let ops = text_ops(controller, s);
    lemma_string_ops_index(controller, s);
    assert forall|k: int| 0 <= k < s.len() implies {
        &&& ops[1 + 2 * k] == data_op(controller, low_byte(#[trigger] s[k]))
        &&& ops[2 + 2 * k] == delay_op(5)
    } by {
        assert(ops[1 + 2 * k] == body[2 * k]);
        assert(ops[2 + 2 * k] == body[2 * k + 1]);
    }
    assert forall|i: int| 1 <= i < ops.len() implies !is_command(controller, #[trigger] ops[i]) by {
        assert(ops[i] == body[i - 1]);
        lemma_string_ops_no_command(controller, s, i - 1);
    }
}

/// A text of more than sixteen characters changes line exactly once: the
/// cursor goes to the start of the first line, the first sixteen characters
/// follow, the cursor goes to the start of the second line, and all the other
/// characters follow. No other step is a command.
pub proof fn lemma_long_text_wraps_once(controller: u8, s: Seq<char>)
    requires
        s.len() > 16,
    ensures
        text_ops(controller, s).len() == 2 + 2 * s.len(),
        text_ops(controller, s)[0] == command_op(controller, 0x80),
        text_ops(controller, s)[33] == command_op(controller, 0xC0),
        forall|k: int|
            0 <= k < 16 ==> {
                &&& text_ops(controller, s)[1 + 2 * k] == data_op(
                    controller,
                    low_byte(#[trigger] s[k]),
                )
                &&& text_ops(controller, s)[2 + 2 * k] == delay_op(5)
            },
        forall|k: int|
            16 <= k < s.len() ==> {
                &&& text_ops(controller, s)[2 + 2 * k] == data_op(
                    controller,
                    low_byte(#[trigger] s[k]),
                )
                &&& text_ops(controller, s)[3 + 2 * k] == delay_op(5)
            },
        forall|i: int|
            0 <= i < text_ops(controller, s).len() && i != 0 && i != 33 ==> !is_command(
                controller,
                #[trigger] text_ops(controller, s)[i],
            ),
{
    let head = s.take(16);
    let tail = s.skip(16);
    let first = string_ops(controller, head);
    let second = string_ops(controller, tail);
    let ops = text_ops(controller, s);
    lemma_string_ops_index(controller, head);
    lemma_string_ops_index(controller, tail);
    assert(first.len() == 32);
    assert(second.len() == 2 * (s.len() - 16));
    assert(ops == line_ops(controller, 0x80, head) + line_ops(controller, 0xC0, tail));
    assert(ops.len() == 2 + 2 * s.len());
    assert(ops[33] == line_ops(controller, 0xC0, tail)[0]);
    assert forall|k: int| 0 <= k < 16 implies {
        &&& ops[1 + 2 * k] == data_op(controller, low_byte(#[trigger] s[k]))
        &&& ops[2 + 2 * k] == delay_op(5)
    } by {
        assert(head[k] == s[k]);
        assert(ops[1 + 2 * k] == first[2 * k]);
        assert(ops[2 + 2 * k] == first[2 * k + 1]);
    }
    assert forall|k: int| 16 <= k < s.len() implies {
        &&& ops[2 + 2 * k] == data_op(controller, low_byte(#[trigger] s[k]))
        &&& ops[3 + 2 * k] == delay_op(5)
    } by {
        let j = k - 16;
        assert(tail[j] == s[k]);
        assert(ops[2 + 2 * k] == second[2 * j]);
        assert(ops[3 + 2 * k] == second[2 * j + 1]);
    }
    assert forall|i: int| 0 <= i < ops.len() && i != 0 && i != 33 implies !is_command(
        controller,
        #[trigger] ops[i],
    ) by {
        if i < 33 {
            assert(ops[i] == first[i - 1]);
            lemma_string_ops_no_command(controller, head, i - 1);
        } else {
            assert(ops[i] == second[i - 34]);
            lemma_string_ops_no_command(controller, tail, i - 34);
        }
    }
}

/// Wrapping loses and reorders nothing: the steps of the first sixteen
/// characters, then those of the others, are the steps of the whole string.
pub proof fn lemma_wrapped_text_keeps_string(controller: u8, s: Seq<char>)
    requires
        s.len() > 16,
    ensures
        string_ops(controller, s) == string_ops(controller, s.take(16)) + string_ops(
            controller,
            s.skip(16),
        ),
{
    lemma_string_ops_concat(controller, s.take(16), s.skip(16));
    assert(s.take(16) + s.skip(16) =~= s);
}

/// Appends the steps of one character.
pub fn push_char(steps: &mut Vec<Step>, controller: u8, c: char)
    ensures
        ops_of(final(steps)@) == ops_of(old(steps)@) + char_ops(controller, c),
{
    append(steps, data_step(controller, char_byte(c)));
    append(steps, delay_step(5));
    proof {
        assert(ops_of(steps@) =~= ops_of(old(steps)@) + char_ops(controller, c));
    }
}

/// The steps of a single character are those of the string that holds it alone.
pub proof fn lemma_string_ops_single(controller: u8, c: char)
    ensures
        string_ops(controller, seq![c]) == char_ops(controller, c),
{
    let one = seq![c];
    assert(one.drop_last() =~= Seq::<char>::empty());
    assert(one.last() == c);
    assert(string_ops(controller, one.drop_last()) =~= Seq::<Op>::empty());
    assert(string_ops(controller, one) =~= char_ops(controller, c));
}

/// One more character at the end of a flow: its steps come last, and where it
/// is the seventeenth of a wrapping flow the move to the second line comes
/// just before them.
pub proof fn lemma_flow_ops_push(controller: u8, s: Seq<char>, c: char, wrap: bool)
    ensures
        flow_ops(controller, s.push(c), wrap) == flow_ops(controller, s, wrap) + (if wrap
            && s.len() == 16 {
            seq![command_op(controller, 0xC0)]
        } else {
            Seq::<Op>::empty()
        }) + char_ops(controller, c),
{
    let longer = s.push(c);
    assert(longer.drop_last() =~= s);
    assert(longer.last() == c);
    if wrap && s.len() == 16 {
        assert(longer.take(16) =~= s);
        assert(longer.skip(16) =~= seq![c]);
        lemma_string_ops_single(controller, c);
    } else if wrap && s.len() > 16 {
        assert(longer.take(16) =~= s.take(16));
        assert(longer.skip(16).drop_last() =~= s.skip(16));
        assert(longer.skip(16).last() == c);
        assert(flow_ops(controller, longer, wrap) =~= flow_ops(controller, s, wrap) + Seq::<
            Op,
        >::empty() + char_ops(controller, c));
    } else {
        assert(flow_ops(controller, longer, wrap) =~= flow_ops(controller, s, wrap) + Seq::<
            Op,
        >::empty() + char_ops(controller, c));
    }
}

/// Appends the steps of the characters of `s` in one pass over them. With
/// `wrap` set, the cursor moves to the second line before the seventeenth
/// character.
pub fn push_flow(steps: &mut Vec<Step>, controller: u8, s: &str, wrap: bool)
    ensures
        ops_of(final(steps)@) == ops_of(old(steps)@) + flow_ops(controller, s@, wrap),
{
    broadcast use vstd::string::group_string_axioms;

    let mut chars = s.chars();
    let mut column: usize = 0;
    let mut wrapped = false;
    let ghost mut done: int = 0;
    proof {
        assert(s@.take(0) =~= Seq::<char>::empty());
        assert(s@.skip(0) =~= s@);
        assert(ops_of(steps@) =~= ops_of(old(steps)@) + flow_ops(controller, s@.take(0), wrap));
    }
    loop
        invariant
            0 <= done <= s@.len(),
            column <= COLUMNS,
            column == if done < 16 { done } else { 16 },
            wrapped == (done > 16),
            chars.remaining() == s@.skip(done),
            ops_of(steps@) == ops_of(old(steps)@) + flow_ops(controller, s@.take(done), wrap),
        ensures
            done == s@.len(),
        decreases s@.len() - done,
    {
        match chars.next() {
            Some(c) => {
                if column < COLUMNS {
                    column = column + 1;
                } else if !wrapped {
                    wrapped = true;
                    if wrap {
                        append(steps, command_step(controller, LINE_TWO));
                    }
                }
                push_char(steps, controller, c);
                proof {
                    assert(s@.skip(done)[0] == s@[done]);
                    assert(s@.skip(done).drop_first() =~= s@.skip(done + 1));
                    assert(s@.take(done + 1) =~= s@.take(done).push(c));
                    lemma_flow_ops_push(controller, s@.take(done), c, wrap);
                    done = done + 1;
                }
            },
            None => {
                break ;
            },
        }
    }
    proof {
        assert(s@.take(done) =~= s@);
    }
}

/// Appends the steps of the characters of `s`.
pub fn push_string(steps: &mut Vec<Step>, controller: u8, s: &str)
    ensures
        ops_of(final(steps)@) == ops_of(old(steps)@) + string_ops(controller, s@),
{
    push_flow(steps, controller, s, false);
}

/// The steps of a clear.
pub fn push_clear(steps: &mut Vec<Step>, controller: u8)
    ensures
        ops_of(final(steps)@) == ops_of(old(steps)@) + clear_ops(controller),
{
    append(steps, command_step(controller, Command::ClearDisplay.encode()));
    append(steps, delay_step(5));
    proof {
        assert(ops_of(steps@) =~= ops_of(old(steps)@) + clear_ops(controller));
    }
}

/// The steps of a backlight colour.
pub fn push_colour(steps: &mut Vec<Step>, backlight: u8, r: u8, g: u8, b: u8)
    ensures
        ops_of(final(steps)@) == ops_of(old(steps)@) + colour_ops(backlight, r, g, b),
{
    append(steps, register_step(backlight, REG_RED, r));
    append(steps, register_step(backlight, REG_GREEN, g));
    append(steps, register_step(backlight, REG_BLUE, b));
    proof {
        assert(ops_of(steps@) =~= ops_of(old(steps)@) + colour_ops(backlight, r, g, b));
    }
}

/// The steps of a line that starts at `base`.
pub fn push_line(steps: &mut Vec<Step>, controller: u8, base: u8, s: &str)
    ensures
        ops_of(final(steps)@) == ops_of(old(steps)@) + line_ops(controller, base, s@),
{
    append(steps, command_step(controller, base));
    push_string(steps, controller, s);
    proof {
        assert(ops_of(steps@) =~= ops_of(old(steps)@) + line_ops(controller, base, s@));
    }
}

/// One round of the power-on settings.
pub fn push_settle_round(steps: &mut Vec<Step>, controller: u8)
    ensures
        ops_of(final(steps)@) == ops_of(old(steps)@) + settle_round(controller),
{
    let entry = Command::EntryMode { left_to_right: true, shift: false };
    let function = Command::FunctionSet { eight_bit: true, two_line: true };
    append(steps, command_step(controller, entry.encode()));
    append(steps, delay_step(10));
    append(steps, command_step(controller, function.encode()));
    append(steps, delay_step(10));
    proof {
        assert(ops_of(steps@) =~= ops_of(old(steps)@) + settle_round(controller));
    }
}

/// Builds the steps of a text over both lines.
pub fn text_steps(controller: u8, s: &str) -> (steps: Vec<Step>)
    ensures
        ops_of(steps@) == text_ops(controller, s@),
{
    let mut steps: Vec<Step> = Vec::new();
    proof {
        assert(ops_of(steps@) =~= Seq::<Op>::empty());
    }
    append(&mut steps, command_step(controller, LINE_ONE));
    push_flow(&mut steps, controller, s, true);
    proof {
        assert(ops_of(steps@) =~= text_ops(controller, s@));
    }
    steps
}

/// The start of the handshake: the settle time and the three rounds.
pub fn push_settling(steps: &mut Vec<Step>, controller: u8)
    ensures
        ops_of(final(steps)@) == ops_of(old(steps)@) + settling_ops(controller),
{
    append(steps, delay_step(50));
    let mut round: u8 = 0;
    proof {
        assert(ops_of(steps@) =~= ops_of(old(steps)@) + seq![delay_op(50)] + settle_rounds(
            controller,
            0,
        ));
    }
    while round < 3
        invariant
            round <= 3,
            ops_of(steps@) == ops_of(old(steps)@) + seq![delay_op(50)] + settle_rounds(
                controller,
                round as nat,
            ),
        decreases 3 - round,
    {
        push_settle_round(steps, controller);
        round = round + 1;
        proof {
            assert(ops_of(steps@) =~= ops_of(old(steps)@) + seq![delay_op(50)] + settle_rounds(
                controller,
                round as nat,
            ));
        }
    }
    proof {
        assert(ops_of(steps@) =~= ops_of(old(steps)@) + settling_ops(controller));
    }
}

/// Builds the steps of the power-on handshake.
pub fn handshake_steps(controller: u8, backlight: u8) -> (steps: Vec<Step>)
    ensures
        ops_of(steps@) == handshake_ops(controller, backlight),
{
    let mut steps: Vec<Step> = Vec::new();
    let display_on = Command::DisplayControl { display: true, cursor: false, blink: false };
    proof {
        assert(ops_of(steps@) =~= Seq::<Op>::empty());
    }
    push_settling(&mut steps, controller);
    append(&mut steps, command_step(controller, display_on.encode()));
    append(&mut steps, delay_step(10));
    append(&mut steps, register_step(backlight, REG_MODE1, 0x00));
    append(&mut steps, register_step(backlight, REG_MODE2, 0x20));
    append(&mut steps, register_step(backlight, REG_OUTPUT, 0xFF));
    push_clear(&mut steps, controller);
    push_colour(&mut steps, backlight, 0, 0, 0);
    proof {
        assert(ops_of(steps@) =~= handshake_ops(controller, backlight));
    }
    steps
}

} // verus!
