//! The byte-level interpreter. The state machine that splits a byte stream
//! into characters, control bytes and control sequences is `vte::Parser`;
//! this module records what it dispatches as plain values, resolves the
//! control sequence that repeats the character drawn last, and says which
//! handler calls each item stands for.

use vstd::prelude::*;
use vstd::slice::slice_to_vec;
use crate::ansi::{Action, Notice};
use crate::decode::{
    csi_calls, csi_dispatch, esc_calls, esc_dispatch, execute, execute_call, extract_param, fields,
    osc_calls, osc_dispatch, param_or,
};
use crate::sgr::rows;

verus! {

/// One item that the byte-level parser dispatches.
pub enum Dispatch {
    /// A character to draw.
    Print(char),
    /// A C0 control byte.
    Execute(u8),
    /// A control sequence: parameters with their sub-parameters,
    /// intermediate bytes, whether the parser had to drop part of the
    /// sequence, and the final character.
    Csi(Vec<Vec<u16>>, Vec<u8>, bool, char),
    /// An escape sequence: intermediate bytes, whether the parser had to
    /// drop part of the sequence, and the final byte.
    Esc(Vec<u8>, bool, u8),
    /// An operating system command: its fields, and whether it ended with
    /// BEL rather than with ESC `\`.
    Osc(Vec<Vec<u8>>, bool),
    /// A character to draw so many times: what the interpreter makes of the
    /// control sequence that repeats the character drawn last.
    Repeat(char, u16),
}

impl Dispatch {
    /// The handler calls that the item stands for, in order.
    pub open spec fn calls(self) -> Seq<Action> {
        match self {
            Dispatch::Print(c) => seq![Action::Input(c)],
            Dispatch::Execute(byte) => match execute_call(byte) {
                Some(call) => seq![call],
                None => Seq::empty(),
            },
            Dispatch::Csi(params, intermediates, ignore, action) => csi_calls(
                rows(params@),
                intermediates@,
                ignore,
                action,
            ),
            Dispatch::Esc(intermediates, ignore, byte) => esc_calls(intermediates@, byte),
            Dispatch::Osc(params, bell_terminated) => osc_calls(fields(params@), bell_terminated),
            Dispatch::Repeat(c, count) => Seq::new(count as nat, |i: int| Action::Input(c)),
        }
    }

    /// Whether the item is the control sequence that repeats the character
    /// drawn last: `b` without intermediate bytes.
    pub open spec fn repeats(self) -> bool {
        self matches Dispatch::Csi(params, intermediates, ignore, action) && !ignore
            && intermediates@.len() == 0 && action == 'b'
    }

    /// How often such a sequence repeats the character: its first
    /// parameter, or once where that is missing or zero.
    pub open spec fn repeat_count(self) -> u16 {
        match self {
            Dispatch::Csi(params, intermediates, ignore, action) => param_or(rows(params@), 0, 1),
            _ => 1,
        }
    }

    /// What the interpreter hands on for the item when `preceding` is the
    /// character drawn last: a repetition becomes the character with its
    /// count, if a character was drawn before; anything else, and a
    /// repetition of nothing, stays as it is.
    pub open spec fn resolved(self, preceding: Option<char>) -> Dispatch {
        match preceding {
            Some(c) => if self.repeats() {
                Dispatch::Repeat(c, self.repeat_count())
            } else {
                self
            },
            None => self,
        }
    }

    /// The character drawn last after the item.
    pub open spec fn drawn_after(self, preceding: Option<char>) -> Option<char> {
        match self {
            Dispatch::Print(c) => Some(c),
            _ => preceding,
        }
    }

    /// The payload of the item: the third field of an operating system
    /// command, which is what a clipboard store carries; empty for every
    /// other item.
    pub open spec fn payload(self) -> Seq<u8> {
        match self {
            Dispatch::Osc(params, bell_terminated) => if params@.len() >= 3 {
                params@[2]@
            } else {
                Seq::empty()
            },
            _ => Seq::empty(),
        }
    }

    /// The handler calls that the item stands for, in order.
    pub fn decode(&self) -> (r: Vec<Action>)
        ensures
            r@ == self.calls(),
    {
        match self {
            Dispatch::Print(c) => {
                let mut out: Vec<Action> = Vec::new();
                out.push(Action::Input(*c));
                assert(out@ =~= seq![Action::Input(*c)]);
                out
            },
            Dispatch::Execute(byte) => {
                let mut out: Vec<Action> = Vec::new();
                match execute(*byte) {
                    Some(call) => {
                        out.push(call);
                        assert(out@ =~= seq![call]);
                    },
                    None => {},
                }
                out
            },
            Dispatch::Csi(params, intermediates, ignore, action) => csi_dispatch(
                params,
                intermediates,
                *ignore,
                *action,
            ),
            Dispatch::Esc(intermediates, ignore, byte) => esc_dispatch(intermediates, *ignore, *byte),
            Dispatch::Osc(params, bell_terminated) => osc_dispatch(params, *bell_terminated),
            Dispatch::Repeat(c, count) => {
                let mut out: Vec<Action> = Vec::new();
                let mut i: u16 = 0;
                while i < *count
                    invariant
                        i <= *count,
                        out@.len() == i,
                        forall|k: int| 0 <= k < i ==> #[trigger] out@[k] == Action::Input(*c),
                    decreases *count - i,
                {
                    out.push(Action::Input(*c));
                    i += 1;
                }
                assert(out@ =~= Seq::new(*count as nat, |i: int| Action::Input(*c)));
                out
            },
        }
    }

    /// How the item is named to the logger if it stands for no call.
    pub open spec fn kind_notice(self) -> Option<Notice> {
        match self {
            Dispatch::Print(c) => None,
            Dispatch::Execute(byte) => Some(Notice::UnknownControl(byte)),
            Dispatch::Csi(params, intermediates, ignore, action) => Some(Notice::UnknownCsi(action)),
            Dispatch::Esc(intermediates, ignore, byte) => Some(Notice::UnknownEsc(byte)),
            Dispatch::Osc(params, bell_terminated) => Some(Notice::UnknownOsc),
            Dispatch::Repeat(c, count) => None,
        }
    }

    /// What the logger is told of the item: nothing if it stands for a
    /// call, and how it is named if it is a control byte or sequence that
    /// stands for none.
    pub open spec fn unknown(self) -> Option<Notice> {
        if self.calls().len() == 0 {
            self.kind_notice()
        } else {
            None
        }
    }

    /// How the item is named to the logger if it stands for no call.
    pub fn kind(&self) -> (r: Option<Notice>)
        ensures
            r == self.kind_notice(),
    {
        match self {
            Dispatch::Print(c) => None,
            Dispatch::Execute(byte) => Some(Notice::UnknownControl(*byte)),
            Dispatch::Csi(params, intermediates, ignore, action) => Some(
                Notice::UnknownCsi(*action),
            ),
            Dispatch::Esc(intermediates, ignore, byte) => Some(Notice::UnknownEsc(*byte)),
            Dispatch::Osc(params, bell_terminated) => Some(Notice::UnknownOsc),
            Dispatch::Repeat(c, count) => None,
        }
    }

    /// The payload of the item.
    pub fn clipboard_payload(&self) -> (r: Vec<u8>)
        ensures
            r@ == self.payload(),
    {
        match self {
            Dispatch::Osc(params, bell_terminated) => {
                if params.len() >= 3 {
                    slice_to_vec(params[2].as_slice())
                } else {
                    Vec::new()
                }
            },
            _ => Vec::new(),
        }
    }
}

#[verifier::external_type_specification]
#[verifier::external_body]
pub struct ExParams(vte::Params);

#[verifier::external_type_specification]
#[verifier::external_body]
pub struct ExParser<const OSC_RAW_BUF_SIZE: usize>(vte::Parser<OSC_RAW_BUF_SIZE>);

/// Calls `vte::Params::iter` and copies out what it yields.
///
/// Nothing is assumed of the result.
#[verifier::external_body]
fn params_to_vec(params: &vte::Params) -> (r: Vec<Vec<u16>>) {
    params.iter().map(|p| p.to_vec()).collect()
}

/// The fields of an operating system command, copied out.
fn fields_to_vec(params: &[&[u8]]) -> (r: Vec<Vec<u8>>)
    ensures
        r@.len() == params@.len(),
        forall|i: int| 0 <= i < r@.len() ==> (#[trigger] r@[i])@ == params@[i]@,
{
    let mut out: Vec<Vec<u8>> = Vec::new();
    let mut i: usize = 0;
    while i < params.len()
        invariant
            i <= params.len(),
            out@.len() == i,
            forall|k: int| 0 <= k < i ==> (#[trigger] out@[k])@ == params@[k]@,
        decreases params.len() - i,
    {
        out.push(slice_to_vec(params[i]));
        i += 1;
    }
    out
}

/// Keeps what the byte-level parser dispatches, in order.
pub struct Recorder {
    log: Vec<Dispatch>,
}

impl Recorder {
    /// What was recorded so far, in order.
    pub closed spec fn recorded(&self) -> Seq<Dispatch> {
        self.log@
    }

    pub fn new() -> (r: Recorder)
        ensures
            r.recorded() == Seq::<Dispatch>::empty(),
    {
        Recorder { log: Vec::new() }
    }

    /// What was recorded, in order.
    pub fn into_log(self) -> (r: Vec<Dispatch>)
        ensures
            r@ == self.recorded(),
    {
        self.log
    }
}

impl vte::Perform for Recorder {
    fn print(&mut self, c: char)
        ensures
            final(self).recorded() == old(self).recorded().push(Dispatch::Print(c)),
    {
        self.log.push(Dispatch::Print(c));
    }

    fn execute(&mut self, byte: u8)
        ensures
            final(self).recorded() == old(self).recorded().push(Dispatch::Execute(byte)),
    {
        self.log.push(Dispatch::Execute(byte));
    }

    fn osc_dispatch(&mut self, params: &[&[u8]], bell_terminated: bool)
        ensures
            final(self).recorded().len() == old(self).recorded().len() + 1,
            final(self).recorded().drop_last() == old(self).recorded(),
            final(self).recorded().last() matches Dispatch::Osc(fields, bell) && bell
                == bell_terminated && fields@.len() == params@.len() && forall|i: int|
                0 <= i < fields@.len() ==> (#[trigger] fields@[i])@ == params@[i]@,
    {
        self.log.push(Dispatch::Osc(fields_to_vec(params), bell_terminated));
        assert(self.log@.drop_last() =~= old(self).log@);
    }

    fn csi_dispatch(&mut self, params: &vte::Params, intermediates: &[u8], ignore: bool, action: char)
        ensures
            final(self).recorded().len() == old(self).recorded().len() + 1,
            final(self).recorded().drop_last() == old(self).recorded(),
            final(self).recorded().last() matches Dispatch::Csi(p, marks, ignored, last)
                && marks@ == intermediates@ && ignored == ignore && last == action,
    {
        self.log.push(
            Dispatch::Csi(params_to_vec(params), slice_to_vec(intermediates), ignore, action),
        );
        assert(self.log@.drop_last() =~= old(self).log@);
    }

    fn esc_dispatch(&mut self, intermediates: &[u8], ignore: bool, byte: u8)
        ensures
            final(self).recorded().len() == old(self).recorded().len() + 1,
            final(self).recorded().drop_last() == old(self).recorded(),
            final(self).recorded().last() matches Dispatch::Esc(marks, ignored, last) && marks@
                == intermediates@ && ignored == ignore && last == byte,
    {
        self.log.push(Dispatch::Esc(slice_to_vec(intermediates), ignore, byte));
        assert(self.log@.drop_last() =~= old(self).log@);
    }
}

/// The bytes that the parser has been fed since it was made, in order.
pub uninterp spec fn bytes_fed(parser: vte::Parser) -> Seq<u8>;

/// What the parser dispatches, in order, when it is fed `bytes` after the
/// bytes `fed`.
pub uninterp spec fn dispatched(fed: Seq<u8>, bytes: Seq<u8>) -> Seq<Dispatch>;

/// Calls `vte::Parser::new`.
///
/// Assumed, not proved: the new parser has been fed no byte.
#[verifier::external_body]
fn parser_new() -> (r: vte::Parser)
    ensures
        bytes_fed(r).len() == 0,
{
    vte::Parser::new()
}

/// Calls `vte::Parser::advance` with a `Recorder` for its performer.
///
/// Assumed, not proved: what the parser dispatches depends on nothing but
/// the bytes that it was fed before and these, and the parser has then been
/// fed these too.
#[verifier::external_body]
fn parser_advance(parser: &mut vte::Parser, bytes: &[u8]) -> (r: Vec<Dispatch>)
    ensures
        r@ == dispatched(bytes_fed(*old(parser)), bytes@),
        bytes_fed(*final(parser)) == bytes_fed(*old(parser)) + bytes@,
{
    let mut recorder = Recorder::new();
    parser.advance(&mut recorder, bytes);
    recorder.into_log()
}

/// The character drawn last after the items, when `preceding` was drawn
/// last before them.
pub open spec fn last_drawn(preceding: Option<char>, items: Seq<Dispatch>) -> Option<char>
    decreases items.len(),
{
    if items.len() == 0 {
        preceding
    } else {
        items.last().drawn_after(last_drawn(preceding, items.drop_last()))
    }
}

/// The items with every repetition resolved: each stands as it is resolved
/// under the character that was drawn last before it.
pub open spec fn resolved_all(preceding: Option<char>, items: Seq<Dispatch>) -> Seq<Dispatch>
    decreases items.len(),
{
    if items.len() == 0 {
        Seq::empty()
    } else {
        resolved_all(preceding, items.drop_last()).push(
            items.last().resolved(last_drawn(preceding, items.drop_last())),
        )
    }
}

/// Resolves the repetitions among `items` and keeps track of the character
/// drawn last.
pub fn resolve_repeats(preceding: &mut Option<char>, items: &mut Vec<Dispatch>)
    ensures
        final(items)@ == resolved_all(*old(preceding), old(items)@),
        *final(preceding) == last_drawn(*old(preceding), old(items)@),
{
    let ghost raw = items@;
    let ghost first = *preceding;
    let mut i: usize = 0;
    assert(items@.subrange(0, 0) =~= resolved_all(first, raw.subrange(0, 0)));
    while i < items.len()
        invariant
            i <= items.len(),
            items@.len() == raw.len(),
            items@.subrange(0, i as int) == resolved_all(first, raw.subrange(0, i as int)),
            items@.subrange(i as int, raw.len() as int) == raw.subrange(i as int, raw.len() as int),
            *preceding == last_drawn(first, raw.subrange(0, i as int)),
        decreases items.len() - i,
    {
        let ghost before = items@;
        let ghost drawn = *preceding;
        assert(before[i as int] == before.subrange(i as int, raw.len() as int)[0]);
        assert(raw[i as int] == raw.subrange(i as int, raw.len() as int)[0]);
        let mut put: Option<Dispatch> = None;
        let mut next: Option<char> = *preceding;
        match &items[i] {
            Dispatch::Print(c) => {
                next = Some(*c);
            },
            Dispatch::Csi(params, intermediates, ignore, action) => {
                if !*ignore && intermediates.len() == 0 && *action == 'b' {
                    match *preceding {
                        Some(c) => {
                            put = Some(Dispatch::Repeat(c, extract_param(params, 0, 1)));
                        },
                        None => {},
                    }
                }
            },
            _ => {},
        }
        match put {
            Some(item) => {
                items.set(i, item);
            },
            None => {},
        }
        *preceding = next;
        proof {
            let upto = raw.subrange(0, i + 1);
            assert(upto.drop_last() =~= raw.subrange(0, i as int));
            assert(upto.last() == raw[i as int]);
            assert(items@[i as int] == raw[i as int].resolved(drawn));
            assert(items@.subrange(0, i + 1) =~= before.subrange(0, i as int).push(
                items@[i as int],
            ));
            assert(items@.subrange(i + 1, raw.len() as int) =~= raw.subrange(
                i + 1,
                raw.len() as int,
            )) by {
                assert forall|k: int| i + 1 <= k < raw.len() implies items@[k] == raw[k] by {
                    assert(before[k] == before.subrange(i as int, raw.len() as int)[k - i]);
                    assert(raw[k] == raw.subrange(i as int, raw.len() as int)[k - i]);
                }
            }
        }
        i += 1;
    }
    assert(items@.subrange(0, i as int) =~= items@);
    assert(raw.subrange(0, i as int) =~= raw);
}

/// The byte-level interpreter: it remembers the sequence that the bytes so
/// far have left unfinished, and the character that was drawn last.
pub struct Interpreter {
    parser: vte::Parser,
    preceding: Option<char>,
}

impl Interpreter {
    /// The character that was drawn last, if any was.
    pub closed spec fn preceding(&self) -> Option<char> {
        self.preceding
    }

    /// The bytes that the interpreter has been fed so far, in order.
    pub closed spec fn fed(&self) -> Seq<u8> {
        bytes_fed(self.parser)
    }

    /// What the interpreter hands back when it is fed `bytes` now: the items
    /// that the parser dispatches, with every repetition resolved.
    pub open spec fn items_for(&self, bytes: Seq<u8>) -> Seq<Dispatch> {
        resolved_all(self.preceding(), dispatched(self.fed(), bytes))
    }

    /// The character drawn last after the interpreter was fed `bytes` now.
    pub open spec fn preceding_after(&self, bytes: Seq<u8>) -> Option<char> {
        last_drawn(self.preceding(), dispatched(self.fed(), bytes))
    }

    /// An interpreter that has seen no byte.
    pub fn new() -> (r: Interpreter)
        ensures
            r.preceding() is None,
            r.fed() == Seq::<u8>::empty(),
    {
        Interpreter { parser: parser_new(), preceding: None }
    }

    /// Feeds `bytes` to the interpreter and hands back what they complete,
    /// in order: the items that the parser dispatches, with every
    /// repetition resolved.
    pub fn advance(&mut self, bytes: &[u8]) -> (r: Vec<Dispatch>)
        ensures
            r@ == old(self).items_for(bytes@),
            final(self).fed() == old(self).fed() + bytes@,
            final(self).preceding() == old(self).preceding_after(bytes@),
    {
        let mut items = parser_advance(&mut self.parser, bytes);
        resolve_repeats(&mut self.preceding, &mut items);
        items
    }
}

} // verus!
