//! The OCaml interpreter session: what is fed to the machine's UART and
//! when, and what the machine's stop reasons mean for the session.
//!
//! The machine itself (a COR24 emulator running the p-code VM that runs the
//! interpreter) is driven by the caller. A tick is a conversation: the
//! session answers each report from the machine with the next thing to do
//! to it, until the tick is over. The OCaml REPL reads its source from the
//! UART, one byte at a time, terminated by `0x04` (EOT) in one-shot mode;
//! interactive sessions keep the stream open so `feed_input` can append
//! more lines as the user types.

use vstd::prelude::*;
use vstd::string::StringSliceAdditionalSpecFns;
use vstd::utf8::{encode_scalar, encode_utf8};
use std::collections::VecDeque;
use crate::hex::{hex_upper, padded_hex};
use crate::text::{append_str, ends_with_newline, str_ends_with_newline, string_of};

verus! {

/// Per-tick total instruction budget across all inner sub-batches.
pub const DEFAULT_BATCH: u64 = 1_000_000;

/// Inner sub-batch size between UART feeds: small enough that the next
/// source byte is delivered before the interpreter spends long polling the
/// UART, large enough to amortize the cost of a batch.
pub const INNER_BATCH: u64 = 50_000;

/// Memory-mapped UART status port.
pub const IO_UARTSTAT: u32 = 0xFF_0101;

/// Bit of the UART status: a received byte is waiting to be read.
pub const UARTSTAT_RX_READY: u8 = 0x01;

/// The byte that ends the source of a one-shot session.
pub const EOT: u8 = 0x04;

/// Whether the UART status byte says a received byte is still waiting, so
/// that no new byte may be pushed without overflowing the one-byte FIFO.
pub fn rx_ready(status: u8) -> (r: bool)
    ensures
        r == (status & UARTSTAT_RX_READY != 0),
{
    status & UARTSTAT_RX_READY != 0
}

/// Why the machine stopped running a batch.
#[derive(Clone, Copy, Debug, PartialEq, Eq)]
pub enum StopReason {
    /// The program halted.
    Halted,
    /// An undefined opcode byte was fetched.
    InvalidInstruction(u8),
    /// A breakpoint at the given address was hit.
    Breakpoint(u32),
    /// The machine was paused.
    Paused,
    /// The stack pointer passed below the stack (its value given).
    StackOverflow(u32),
    /// The stack pointer passed above the stack (its value given).
    StackUnderflow(u32),
    /// The batch used up the instructions it was allowed.
    CycleLimit,
}

/// The text a session reports for a batch that stopped for `reason`, with
/// the program counter `pc` after the batch; `"stalled"` for a batch that
/// hit its limit without running anything.
pub open spec fn stop_message(reason: StopReason, pc: u32) -> Seq<char> {
    match reason {
        StopReason::Halted => "halted"@,
        StopReason::InvalidInstruction(byte) => "invalid instruction 0x"@ + padded_hex(
            byte as nat,
            2,
        ) + " at PC=0x"@ + padded_hex(pc as nat, 6),
        StopReason::Breakpoint(addr) => "breakpoint at 0x"@ + padded_hex(addr as nat, 6),
        StopReason::Paused => "paused"@,
        StopReason::StackOverflow(sp) => "stack overflow at SP=0x"@ + padded_hex(sp as nat, 6),
        StopReason::StackUnderflow(sp) => "stack underflow at SP=0x"@ + padded_hex(sp as nat, 6),
        StopReason::CycleLimit => "stalled"@,
    }
}

fn stop_text(reason: StopReason, pc: u32) -> (r: String)
    ensures
        r@ == stop_message(reason, pc),
{
    match reason {
        StopReason::Halted => string_of("halted"),
        StopReason::InvalidInstruction(byte) => {
            let mut r = string_of("invalid instruction 0x");
            append_str(&mut r, hex_upper(byte as u32, 2).as_str());
            append_str(&mut r, " at PC=0x");
            append_str(&mut r, hex_upper(pc, 6).as_str());
            r
        },
        StopReason::Breakpoint(addr) => {
            let mut r = string_of("breakpoint at 0x");
            append_str(&mut r, hex_upper(addr, 6).as_str());
            r
        },
        StopReason::Paused => string_of("paused"),
        StopReason::StackOverflow(sp) => {
            let mut r = string_of("stack overflow at SP=0x");
            append_str(&mut r, hex_upper(sp, 6).as_str());
            r
        },
        StopReason::StackUnderflow(sp) => {
            let mut r = string_of("stack underflow at SP=0x");
            append_str(&mut r, hex_upper(sp, 6).as_str());
            r
        },
        StopReason::CycleLimit => string_of("stalled"),
    }
}

/// The bytes queued for the UART when a session starts on `source`: its
/// UTF-8 bytes, a newline if it does not end with one (so the REPL's read
/// loop ends the echoed line), and EOT when the session is one-shot.
pub open spec fn initial_queue(source: &str, interactive: bool) -> Seq<u8> {
    source.spec_bytes() + (if ends_with_newline(source@) {
        seq![]
    } else {
        seq![0x0au8]
    }) + (if interactive {
        seq![]
    } else {
        seq![EOT]
    })
}

/// The bytes a line of user input adds to the queue: its UTF-8 bytes and a
/// newline if it does not end with one.
pub open spec fn input_bytes(line: &str) -> Seq<u8> {
    line.spec_bytes() + (if ends_with_newline(line@) {
        seq![]
    } else {
        seq![0x0au8]
    })
}

/// The abstract state of a session.
pub struct SessionView {
    /// Instructions run so far.
    pub instructions: nat,
    /// The machine stopped for good.
    pub done: bool,
    /// It stopped by halting.
    pub halted: bool,
    /// Why it stopped (empty while running).
    pub stop_reason: Seq<char>,
    /// The session takes more input after its source.
    pub interactive: bool,
    /// Bytes waiting to be pushed to the UART, first one first.
    pub queue: Seq<u8>,
    /// The queue still holds part of the program's source.
    pub seeding_source: bool,
}

impl SessionView {
    /// Consistency of a session: it has a stop reason exactly when it is
    /// done, and it halted exactly when that reason is `"halted"`.
    pub open spec fn wf(self) -> bool {
        &&& self.done <==> self.stop_reason.len() > 0
        &&& self.halted <==> self.stop_reason == "halted"@
    }
}

/// An interpreter session.
pub struct Session {
    pub instructions: u64,
    pub done: bool,
    pub halted: bool,
    pub stop_reason: String,
    interactive: bool,
    /// The UART receiver holds one byte; the rest wait here.
    rx_queue: VecDeque<u8>,
    /// Every byte drained from the queue so far is the program's source.
    seeding_source: bool,
}

impl View for Session {
    type V = SessionView;

    closed spec fn view(&self) -> SessionView {
        SessionView {
            instructions: self.instructions as nat,
            done: self.done,
            halted: self.halted,
            stop_reason: self.stop_reason@,
            interactive: self.interactive,
            queue: self.rx_queue@,
            seeding_source: self.seeding_source,
        }
    }
}

/// The value a tick reports.
#[derive(Clone, Copy, Debug, PartialEq, Eq)]
pub struct TickResult {
    pub done: bool,
}

/// What the machine must do next during a tick.
#[derive(Clone, Copy, Debug, PartialEq, Eq)]
pub enum TickAction {
    /// Read the UART status and report whether a received byte waits.
    CheckRx,
    /// Push this byte into the UART receiver and report it sent.
    SendByte(u8),
    /// Run at most this many instructions and report the outcome.
    RunBatch(u64),
    /// The tick is over.
    Finished(TickResult),
}

/// What the machine reports during a tick.
#[derive(Clone, Copy, Debug, PartialEq, Eq)]
pub enum TickEvent {
    /// The UART status was read: whether a received byte still waits.
    RxStatus(bool),
    /// The byte was pushed into the UART receiver.
    ByteSent,
    /// A batch ran `instructions_run` instructions and stopped for
    /// `reason`; `pc` is the program counter after it.
    BatchRan { instructions_run: u64, reason: StopReason, pc: u32 },
}

/// What a tick waits for.
#[derive(Clone, Copy, Debug, PartialEq, Eq)]
pub enum Awaiting {
    RxStatus,
    ByteSent,
    BatchRan,
    Nothing,
}

/// The progress of one tick.
#[derive(Clone, Copy, Debug, PartialEq, Eq)]
pub struct Tick {
    /// Instructions this tick may run.
    pub budget: u64,
    /// Instructions this tick has run.
    pub total: u64,
    /// The report the tick waits for.
    pub awaiting: Awaiting,
}

impl Tick {
    /// Whether `ev` is the report this tick waits for.
    pub open spec fn accepts(self, ev: TickEvent) -> bool {
        match ev {
            TickEvent::RxStatus(_) => self.awaiting == Awaiting::RxStatus,
            TickEvent::ByteSent => self.awaiting == Awaiting::ByteSent,
            TickEvent::BatchRan { .. } => self.awaiting == Awaiting::BatchRan,
        }
    }

    /// Whether the tick is over.
    pub open spec fn is_over(self) -> bool {
        self.awaiting == Awaiting::Nothing
    }
}

/// The size of the next batch of a tick that has run `total` of `budget`.
pub open spec fn next_chunk(budget: u64, total: u64) -> u64 {
    if INNER_BATCH < budget - total {
        INNER_BATCH
    } else {
        (budget - total) as u64
    }
}

/// Whether a batch that ran `run` instructions and stopped for `reason`
/// ends the session.
pub open spec fn ends_session(reason: StopReason, run: u64) -> bool {
    match reason {
        StopReason::CycleLimit => run == 0,
        _ => true,
    }
}

/// The tick that starts on a session in state `s` with `budget`, and its
/// first action: a session that is done, or a zero budget, ends the tick at
/// once; otherwise the tick starts by asking for the UART status.
pub open spec fn tick_start(s: SessionView, budget: u64) -> (Tick, TickAction) {
    if s.done {
        (
            Tick { budget, total: 0, awaiting: Awaiting::Nothing },
            TickAction::Finished(TickResult { done: true }),
        )
    } else if budget == 0 {
        (
            Tick { budget, total: 0, awaiting: Awaiting::Nothing },
            TickAction::Finished(TickResult { done: false }),
        )
    } else {
        (Tick { budget, total: 0, awaiting: Awaiting::RxStatus }, TickAction::CheckRx)
    }
}

/// One step of a tick: the session `s` during tick `t` answers the
/// machine's report `ev` with its new state, the tick's new state and the
/// next action.
///
/// While the UART receiver is empty, queued bytes are pushed one at a time;
/// then a batch of at most `INNER_BATCH` instructions runs, never more than
/// the tick has left. A batch that halts, traps, is paused or hits its limit
/// without running anything ends the session; the tick ends with it, or
/// when its budget is used up.
pub open spec fn step(s: SessionView, t: Tick, ev: TickEvent) -> (SessionView, Tick, TickAction) {
    match ev {
        TickEvent::RxStatus(ready) => if !ready && s.queue.len() > 0 {
            let q = s.queue.drop_first();
            (
                SessionView { queue: q, seeding_source: s.seeding_source && q.len() > 0, ..s },
                Tick { awaiting: Awaiting::ByteSent, ..t },
                TickAction::SendByte(s.queue[0]),
            )
        } else {
            (
                s,
                Tick { awaiting: Awaiting::BatchRan, ..t },
                TickAction::RunBatch(next_chunk(t.budget, t.total)),
            )
        },
        TickEvent::ByteSent => (s, Tick { awaiting: Awaiting::RxStatus, ..t }, TickAction::CheckRx),
        TickEvent::BatchRan { instructions_run, reason, pc } => {
            let ran = SessionView { instructions: s.instructions + instructions_run as nat, ..s };
            let total = (t.total + instructions_run) as u64;
            if ends_session(reason, instructions_run) {
                (
                    SessionView {
                        done: true,
                        halted: reason == StopReason::Halted,
                        stop_reason: stop_message(reason, pc),
                        ..ran
                    },
                    Tick { total, awaiting: Awaiting::Nothing, ..t },
                    TickAction::Finished(TickResult { done: true }),
                )
            } else if total < t.budget {
                (ran, Tick { total, awaiting: Awaiting::RxStatus, ..t }, TickAction::CheckRx)
            } else {
                (
                    ran,
                    Tick { total, awaiting: Awaiting::Nothing, ..t },
                    TickAction::Finished(TickResult { done: s.done }),
                )
            }
        },
    }
}

/// The stop message is never empty, and it is `"halted"` exactly when the
/// machine halted.
pub proof fn lemma_stop_message(reason: StopReason, pc: u32)
    ensures
        stop_message(reason, pc).len() > 0,
        stop_message(reason, pc) == "halted"@ <==> reason == StopReason::Halted,
{
    reveal_strlit("halted");
    reveal_strlit("invalid instruction 0x");
    reveal_strlit("breakpoint at 0x");
    reveal_strlit("paused");
    reveal_strlit("stack overflow at SP=0x");
    reveal_strlit("stack underflow at SP=0x");
    reveal_strlit("stalled");
    let m = stop_message(reason, pc);
    match reason {
        StopReason::Paused => {
            assert(m[0] != "halted"@[0]);
        },
        StopReason::Halted => {},
        StopReason::CycleLimit => {},
        _ => {
            assert(m.len() > 6);
        },
    }
}


impl Session {
    /// Consistency of a session: [`SessionView::wf`].
    pub open spec fn wf(self) -> bool {
        self@.wf()
    }

    /// A one-shot session on `source`: the source, a newline if missing and
    /// EOT are queued for the UART.
    pub fn new(source: &str) -> (s: Self)
        ensures
            s@ == Self::fresh(source, false),
            s.wf(),
    {
        Self::new_with_mode(source, false)
    }

    /// An interactive session on `source`: the source and a newline if
    /// missing are queued; the stream stays open for `feed_input`.
    pub fn new_interactive(source: &str) -> (s: Self)
        ensures
            s@ == Self::fresh(source, true),
            s.wf(),
    {
        Self::new_with_mode(source, true)
    }

    /// The state of a session that has just started on `source`.
    pub open spec fn fresh(source: &str, interactive: bool) -> SessionView {
        SessionView {
            instructions: 0,
            done: false,
            halted: false,
            stop_reason: seq![],
            interactive,
            queue: initial_queue(source, interactive),
            seeding_source: true,
        }
    }

    fn new_with_mode(source: &str, interactive: bool) -> (s: Self)
        ensures
            s@ == Self::fresh(source, interactive),
            s.wf(),
    {
        let bytes = source.as_bytes();
        let mut rx_queue: VecDeque<u8> = VecDeque::new();
        let mut i: usize = 0;
        while i < bytes.len()
            invariant
                i <= bytes@.len(),
                bytes@ == source.spec_bytes(),
                rx_queue@ == bytes@.take(i as int),
            decreases bytes@.len() - i,
        {
            rx_queue.push_back(bytes[i]);
            i += 1;
            assert(bytes@.take(i as int) =~= bytes@.take(i - 1).push(bytes@[i - 1]));
        }
        assert(bytes@.take(bytes@.len() as int) =~= bytes@);
        if !str_ends_with_newline(source) {
            rx_queue.push_back(0x0a);
        }
        if !interactive {
            rx_queue.push_back(EOT);
        }
        let s = Session {
            instructions: 0,
            done: false,
            halted: false,
            stop_reason: String::new(),
            interactive,
            rx_queue,
            seeding_source: true,
        };
        assert(s@.queue =~= initial_queue(source, interactive));
        proof {
            reveal_strlit("halted");
        }
        s
    }

    /// Start a tick that may run up to `DEFAULT_BATCH` instructions.
    pub fn tick(&self) -> (r: (Tick, TickAction))
        ensures
            r == tick_start(self@, DEFAULT_BATCH),
    {
        self.tick_with_budget(DEFAULT_BATCH)
    }

    /// Start a tick that may run up to `budget` instructions. A session that
    /// is done ends the tick at once; otherwise the tick starts by asking
    /// for the UART status.
    pub fn tick_with_budget(&self, budget: u64) -> (r: (Tick, TickAction))
        ensures
            r == tick_start(self@, budget),
    {
        if self.done {
            (
                Tick { budget, total: 0, awaiting: Awaiting::Nothing },
                TickAction::Finished(TickResult { done: true }),
            )
        } else if budget == 0 {
            (
                Tick { budget, total: 0, awaiting: Awaiting::Nothing },
                TickAction::Finished(TickResult { done: false }),
            )
        } else {
            (Tick { budget, total: 0, awaiting: Awaiting::RxStatus }, TickAction::CheckRx)
        }
    }

    /// Answer the machine's report `ev` during `tick` with the next action.
    ///
    /// While the UART receiver is empty, queued bytes are pushed one at a
    /// time; then a batch of at most `INNER_BATCH` instructions runs, never
    /// more than the tick has left. A batch that halts, traps, is paused or
    /// hits its limit without running anything ends the session; the tick
    /// ends with it, or when its budget is used up.
    pub fn advance(&mut self, tick: &mut Tick, ev: TickEvent) -> (a: TickAction)
        requires
            old(tick).accepts(ev),
            old(tick).total < old(tick).budget,
            !old(self)@.done,
            ev matches TickEvent::BatchRan { instructions_run, .. } ==> {
                &&& old(self)@.instructions + instructions_run <= u64::MAX
                &&& old(tick).total + instructions_run <= u64::MAX
            },
        ensures
            (final(self)@, *final(tick), a) == step(old(self)@, *old(tick), ev),
            old(self)@.wf() ==> final(self)@.wf(),
            a is Finished <==> final(tick).is_over(),
            !final(tick).is_over() ==> final(tick).total < final(tick).budget && !final(self)@.done,
            a matches TickAction::Finished(res) ==> res.done == final(self)@.done,
    {
        match ev {
            TickEvent::RxStatus(ready) => {
                if !ready && self.rx_queue.len() > 0 {
                    let ghost before = self.rx_queue@;
                    let b = self.rx_queue.pop_front().unwrap();
                    if self.rx_queue.len() == 0 {
                        self.seeding_source = false;
                    }
                    proof {
                        assert(self.rx_queue@ =~= before.drop_first());
                    }
                    tick.awaiting = Awaiting::ByteSent;
                    TickAction::SendByte(b)
                } else {
                    let left = tick.budget - tick.total;
                    let chunk = if INNER_BATCH < left {
                        INNER_BATCH
                    } else {
                        left
                    };
                    tick.awaiting = Awaiting::BatchRan;
                    TickAction::RunBatch(chunk)
                }
            },
            TickEvent::ByteSent => {
                tick.awaiting = Awaiting::RxStatus;
                TickAction::CheckRx
            },
            TickEvent::BatchRan { instructions_run, reason, pc } => {
                self.instructions = self.instructions + instructions_run;
                tick.total = tick.total + instructions_run;
                let ends = match reason {
                    StopReason::CycleLimit => instructions_run == 0,
                    _ => true,
                };
                if ends {
                    proof {
                        lemma_stop_message(reason, pc);
                    }
                    self.done = true;
                    self.halted = match reason {
                        StopReason::Halted => true,
                        _ => false,
                    };
                    self.stop_reason = stop_text(reason, pc);
                    tick.awaiting = Awaiting::Nothing;
                    TickAction::Finished(TickResult { done: true })
                } else if tick.total < tick.budget {
                    tick.awaiting = Awaiting::RxStatus;
                    TickAction::CheckRx
                } else {
                    tick.awaiting = Awaiting::Nothing;
                    TickAction::Finished(TickResult { done: self.done })
                }
            },
        }
    }

    /// Append a line of user input for the interactive REPL, with a newline
    /// if it has none. A one-shot session ignores it.
    pub fn feed_input(&mut self, line: &str)
        ensures
            final(self)@ == (if old(self)@.interactive {
                SessionView { queue: old(self)@.queue + input_bytes(line), ..old(self)@ }
            } else {
                old(self)@
            }),
    {
        if !self.interactive {
            return ;
        }
        let bytes = line.as_bytes();
        let ghost start = self.rx_queue@;
        let mut i: usize = 0;
        while i < bytes.len()
            invariant
                i <= bytes@.len(),
                bytes@ == line.spec_bytes(),
                self.rx_queue@ == start + bytes@.take(i as int),
                self.interactive == old(self).interactive,
                self.instructions == old(self).instructions,
                self.done == old(self).done,
                self.halted == old(self).halted,
                self.stop_reason == old(self).stop_reason,
                self.seeding_source == old(self).seeding_source,
                start == old(self)@.queue,
            decreases bytes@.len() - i,
        {
            self.rx_queue.push_back(bytes[i]);
            i += 1;
            assert(bytes@.take(i as int) =~= bytes@.take(i - 1).push(bytes@[i - 1]));
        }
        assert(bytes@.take(bytes@.len() as int) =~= bytes@);
        if !str_ends_with_newline(line) {
            self.rx_queue.push_back(0x0a);
        }
        assert(self@.queue =~= old(self)@.queue + input_bytes(line));
    }

    /// True when the interpreter waits on user input: the session is
    /// interactive, its whole source has been drained and nothing is queued.
    /// A line just fed counts as consumed once its bytes are all pushed,
    /// which may be before the interpreter prints its result.
    pub fn is_awaiting_input(&self) -> (r: bool)
        ensures
            r == (self@.interactive && !self@.seeding_source && self@.queue.len() == 0),
    {
        self.interactive && !self.seeding_source && self.rx_queue.len() == 0
    }

    pub fn is_done(&self) -> (r: bool)
        ensures
            r == self@.done,
    {
        self.done
    }

    pub fn is_halted(&self) -> (r: bool)
        ensures
            r == self@.halted,
    {
        self.halted
    }

    pub fn stop_reason(&self) -> (r: String)
        ensures
            r@ == self@.stop_reason,
    {
        self.stop_reason.clone()
    }

    pub fn instructions(&self) -> (r: u64)
        ensures
            r == self@.instructions,
    {
        self.instructions
    }

    /// Whether the session takes input after its source.
    pub fn is_interactive(&self) -> (r: bool)
        ensures
            r == self@.interactive,
    {
        self.interactive
    }
}

/// Every batch of a tick is non-empty, no larger than `INNER_BATCH`, and
/// keeps the tick within its budget.
pub proof fn lemma_chunk_bounds(budget: u64, total: u64)
    requires
        total < budget,
    ensures
        0 < next_chunk(budget, total) <= INNER_BATCH,
        total + next_chunk(budget, total) <= budget,
{
}

/// A session starts with its source's bytes at the head of the queue; a
/// one-shot session's queue ends with EOT, an interactive one's does not.
pub proof fn lemma_initial_queue_shape(source: &str, interactive: bool)
    ensures
        initial_queue(source, interactive).take(source.spec_bytes().len() as int)
            == source.spec_bytes(),
        !interactive ==> initial_queue(source, interactive).last() == EOT,
        interactive && !ends_with_newline(source@) ==> initial_queue(source, interactive).last()
            == 0x0au8,
        interactive && ends_with_newline(source@) ==> initial_queue(source, interactive)
            == source.spec_bytes(),
{
    let q = initial_queue(source, interactive);
    assert(q.take(source.spec_bytes().len() as int) =~= source.spec_bytes());
    if interactive && ends_with_newline(source@) {
        assert(q =~= source.spec_bytes());
    }
}

/// A line of input is queued as its own bytes, followed by a newline when
/// it has none.
pub proof fn lemma_input_bytes_end_with_newline(line: &str)
    ensures
        !ends_with_newline(line@) ==> input_bytes(line).last() == 0x0au8,
        input_bytes(line).take(line.spec_bytes().len() as int) == line.spec_bytes(),
{
    assert(input_bytes(line).take(line.spec_bytes().len() as int) =~= line.spec_bytes());
}

/// Whether `ev` is a report the machine may give when asked `a`: the UART
/// status for `CheckRx`, the byte pushed for `SendByte`, the outcome of the
/// batch for `RunBatch`; nothing answers `Finished`.
pub open spec fn answers(a: TickAction, ev: TickEvent) -> bool {
    match a {
        TickAction::CheckRx => ev is RxStatus,
        TickAction::SendByte(_) => ev is ByteSent,
        TickAction::RunBatch(_) => ev is BatchRan,
        TickAction::Finished(_) => false,
    }
}

/// Whether the instruction counts stay within `u64` when `ev` is reported
/// to the session `s` during the tick `t`.
pub open spec fn fits(s: SessionView, t: Tick, ev: TickEvent) -> bool {
    ev matches TickEvent::BatchRan { instructions_run, .. } ==> {
        &&& s.instructions + instructions_run <= u64::MAX
        &&& t.total + instructions_run <= u64::MAX
    }
}

/// The session, the tick and the last action asked after the machine has
/// reported `evs` in turn during a tick that started on `s` with `budget`.
pub open spec fn after_reports(s: SessionView, budget: u64, evs: Seq<TickEvent>) -> (
    SessionView,
    Tick,
    TickAction,
)
    decreases evs.len(),
{
    if evs.len() == 0 {
        let st = tick_start(s, budget);
        (s, st.0, st.1)
    } else {
        let p = after_reports(s, budget, evs.drop_last());
        step(p.0, p.1, evs.last())
    }
}

/// Whether the machine can report `evs` in turn during a tick that started
/// on `s` with `budget`: each report answers the action asked just before
/// it, with instruction counts that fit.
pub open spec fn valid_reports(s: SessionView, budget: u64, evs: Seq<TickEvent>) -> bool
    decreases evs.len(),
{
    if evs.len() == 0 {
        true
    } else {
        let p = after_reports(s, budget, evs.drop_last());
        &&& valid_reports(s, budget, evs.drop_last())
        &&& answers(p.2, evs.last())
        &&& fits(p.0, p.1, evs.last())
    }
}

/// The bytes the session asks to push into the UART during the reports
/// `evs`, in the order it asks.
pub open spec fn sent_bytes(s: SessionView, budget: u64, evs: Seq<TickEvent>) -> Seq<u8>
    decreases evs.len(),
{
    if evs.len() == 0 {
        seq![]
    } else {
        let before = sent_bytes(s, budget, evs.drop_last());
        match after_reports(s, budget, evs).2 {
            TickAction::SendByte(b) => before.push(b),
            _ => before,
        }
    }
}

/// How the session, the tick and the action asked fit together during a
/// tick: the action matches the report the tick waits for, the tick is
/// over exactly when the action is `Finished`, a tick that goes on has
/// budget left and a session that is not done, and a finished tick reports
/// whether the session is done.
pub open spec fn in_step(s: SessionView, t: Tick, a: TickAction) -> bool {
    &&& a is Finished <==> t.is_over()
    &&& a is CheckRx ==> t.awaiting == Awaiting::RxStatus
    &&& a is SendByte ==> t.awaiting == Awaiting::ByteSent
    &&& a is RunBatch ==> t.awaiting == Awaiting::BatchRan
    &&& !t.is_over() ==> t.total < t.budget && !s.done
    &&& a matches TickAction::Finished(res) ==> res.done == s.done
}

proof fn lemma_after_prefix(s: SessionView, budget: u64, evs: Seq<TickEvent>, k: int)
    requires
        0 <= k < evs.len(),
    ensures
        after_reports(s, budget, evs.take(k + 1)) == step(
            after_reports(s, budget, evs.take(k)).0,
            after_reports(s, budget, evs.take(k)).1,
            evs[k],
        ),
{
    assert(evs.take(k + 1).drop_last() =~= evs.take(k));
}

proof fn lemma_valid_prefix(s: SessionView, budget: u64, evs: Seq<TickEvent>, j: int)
    requires
        valid_reports(s, budget, evs),
        0 <= j <= evs.len(),
    ensures
        valid_reports(s, budget, evs.take(j)),
    decreases evs.len(),
{
    if j == evs.len() {
        assert(evs.take(j) =~= evs);
    } else {
        lemma_valid_prefix(s, budget, evs.drop_last(), j);
        assert(evs.drop_last().take(j) =~= evs.take(j));
    }
}

/// Over a whole tick, whatever the machine reports: the session stays
/// consistent (a stop reason exactly when done, halted exactly when that
/// reason is `"halted"`), no report reaches a session that is done, and a
/// tick ends with `Finished` saying whether the session is done; the
/// instructions counted grow by what the tick ran; the bytes pushed into
/// the UART are taken from the front of the queue, in order, each once.
#[verifier::rlimit(30)]
pub proof fn lemma_tick_reports(s: SessionView, budget: u64, evs: Seq<TickEvent>)
    requires
        s.wf(),
        valid_reports(s, budget, evs),
    ensures
        in_step(
            after_reports(s, budget, evs).0,
            after_reports(s, budget, evs).1,
            after_reports(s, budget, evs).2,
        ),
        after_reports(s, budget, evs).0.wf(),
        after_reports(s, budget, evs).0.interactive == s.interactive,
        after_reports(s, budget, evs).1.budget == budget,
        after_reports(s, budget, evs).0.instructions == s.instructions + after_reports(
            s,
            budget,
            evs,
        ).1.total,
        sent_bytes(s, budget, evs) + after_reports(s, budget, evs).0.queue == s.queue,
        forall|k: int|
            0 <= k < evs.len() ==> !(#[trigger] after_reports(s, budget, evs.take(k))).0.done,
        after_reports(s, budget, evs).0.done ==> after_reports(s, budget, evs).2
            == TickAction::Finished(TickResult { done: true }),
    decreases evs.len(),
{
    let p = after_reports(s, budget, evs);
    if evs.len() == 0 {
        assert(sent_bytes(s, budget, evs) + p.0.queue =~= s.queue);
    } else {
        let e = evs.drop_last();
        let ev = evs.last();
        lemma_tick_reports(s, budget, e);
        let q = after_reports(s, budget, e);
        assert(p == step(q.0, q.1, ev));
        assert(answers(q.2, ev));
        match ev {
            TickEvent::BatchRan { instructions_run, reason, pc } => {
                lemma_stop_message(reason, pc);
            },
            _ => {},
        }
        match p.2 {
            TickAction::SendByte(b) => {
                assert(sent_bytes(s, budget, evs) == sent_bytes(s, budget, e).push(b));
                assert(q.0.queue == seq![b] + p.0.queue);
                assert(sent_bytes(s, budget, evs) + p.0.queue =~= sent_bytes(s, budget, e)
                    + q.0.queue);
            },
            _ => {
                assert(sent_bytes(s, budget, evs) == sent_bytes(s, budget, e));
            },
        }
        assert forall|k: int| 0 <= k < evs.len() implies !(#[trigger] after_reports(
            s,
            budget,
            evs.take(k),
        )).0.done by {
            if k < e.len() {
                assert(evs.take(k) =~= e.take(k));
            } else {
                assert(evs.take(k) =~= e);
            }
        }
    }
}

/// Done is never undone within a tick: once a prefix of the reports leaves
/// the session done, every longer prefix does too.
pub proof fn lemma_done_stays(s: SessionView, budget: u64, evs: Seq<TickEvent>, j: int, k: int)
    requires
        s.wf(),
        valid_reports(s, budget, evs),
        0 <= j <= k <= evs.len(),
        after_reports(s, budget, evs.take(j)).0.done,
    ensures
        after_reports(s, budget, evs.take(k)).0.done,
{
    lemma_tick_reports(s, budget, evs);
    if j < evs.len() {
        assert(!after_reports(s, budget, evs.take(j)).0.done);
    }
    assert(j == k);
}

/// A byte goes to the UART only in answer to a report that the receiver is
/// empty, it is the byte at the front of the queue and leaves the queue,
/// and the next report is that the byte was pushed: one byte at a time.
pub proof fn lemma_bytes_sent_in_order(s: SessionView, budget: u64, evs: Seq<TickEvent>, k: int)
    requires
        s.wf(),
        valid_reports(s, budget, evs),
        0 <= k < evs.len(),
        after_reports(s, budget, evs.take(k + 1)).2 is SendByte,
    ensures
        evs[k] == TickEvent::RxStatus(false),
        after_reports(s, budget, evs.take(k)).0.queue.len() > 0,
        after_reports(s, budget, evs.take(k + 1)).2 == TickAction::SendByte(
            after_reports(s, budget, evs.take(k)).0.queue[0],
        ),
        after_reports(s, budget, evs.take(k + 1)).0.queue == after_reports(
            s,
            budget,
            evs.take(k),
        ).0.queue.drop_first(),
        k + 1 < evs.len() ==> evs[k + 1] == TickEvent::ByteSent,
{
    lemma_after_prefix(s, budget, evs, k);
    if k + 1 < evs.len() {
        lemma_valid_prefix(s, budget, evs, k + 2);
        let t = evs.take(k + 2);
        assert(t.drop_last() =~= evs.take(k + 1));
        assert(t.last() == evs[k + 1]);
    }
}

/// Over a session's life the bytes pushed into the UART are a prefix of
/// its input stream: the source as first queued followed by every line fed
/// since. If what was pushed before a tick followed by the queue is the
/// stream so far, the same holds after the tick, and what has been pushed
/// is the start of the stream. (Feeding a line extends both the queue and
/// the stream by the same bytes, as `Session::feed_input` states.)
pub proof fn lemma_sent_prefix_of_stream(
    s: SessionView,
    budget: u64,
    evs: Seq<TickEvent>,
    sent: Seq<u8>,
    stream: Seq<u8>,
)
    requires
        s.wf(),
        valid_reports(s, budget, evs),
        sent + s.queue == stream,
    ensures
        (sent + sent_bytes(s, budget, evs)) + after_reports(s, budget, evs).0.queue == stream,
        stream.take((sent + sent_bytes(s, budget, evs)).len() as int) == sent + sent_bytes(
            s,
            budget,
            evs,
        ),
{
    lemma_tick_reports(s, budget, evs);
    let all = sent + sent_bytes(s, budget, evs);
    let q = after_reports(s, budget, evs).0.queue;
    assert(all + q =~= sent + (sent_bytes(s, budget, evs) + q));
    assert((all + q).take(all.len() as int) =~= all);
}

proof fn lemma_encode_concat(a: Seq<char>, b: Seq<char>)
    ensures
        encode_utf8(a + b) == encode_utf8(a) + encode_utf8(b),
    decreases a.len(),
{
    if a.len() == 0 {
        assert(a + b =~= b);
    } else {
        lemma_encode_concat(a.drop_first(), b);
        assert((a + b).drop_first() =~= a.drop_first() + b);
        assert((a + b)[0] == a[0]);
    }
}

/// The UTF-8 bytes of a text that ends with a newline end with the byte
/// `0x0a`.
pub proof fn lemma_bytes_end_with_newline(text: Seq<char>)
    requires
        text.len() > 0,
        text.last() == '\n',
    ensures
        encode_utf8(text).len() > 0,
        encode_utf8(text).last() == 0x0au8,
{
    let front = text.drop_last();
    assert(text =~= front + seq!['\n']);
    lemma_encode_concat(front, seq!['\n']);
    assert(seq!['\n'].drop_first() =~= Seq::<char>::empty());
    assert(('\n' as u32) == 10u32);
    assert((10u32 & 0x7F) as u8 == 10u8) by (bit_vector);
    assert(encode_scalar(10u32) == seq![10u8]);
    let nl: Seq<char> = seq!['\n'];
    assert(nl[0] == '\n');
    assert(encode_utf8(nl.drop_first()) =~= Seq::<u8>::empty());
    assert(encode_utf8(nl) == encode_scalar(nl[0] as u32) + encode_utf8(nl.drop_first()));
    assert(encode_utf8(nl) =~= seq![10u8]);
}

/// The queue a session starts with holds the source's bytes, then one
/// newline byte exactly when the source does not already end with a
/// newline, then EOT exactly when the session is one-shot. So the source as
/// queued always ends with a newline: it is the last byte of an interactive
/// queue, and in a one-shot queue the byte just before EOT.
pub proof fn lemma_queue_ends_source_line(source: &str, interactive: bool)
    ensures
        ({
            let q = initial_queue(source, interactive);
            let n = source.spec_bytes().len() as int;
            let ends = source@.len() > 0 && source@.last() == '\n';
            &&& q.take(n) == source.spec_bytes()
            &&& q.len() == n + (if ends { 0int } else { 1int }) + (if interactive { 0int } else { 1int })
            &&& !ends ==> q[n] == 0x0au8
            &&& interactive ==> q.len() > 0 && q.last() == 0x0au8
            &&& !interactive ==> q.len() >= 2 && q.last() == 0x04u8 && q[q.len() - 2] == 0x0au8
        }),
{
    let q = initial_queue(source, interactive);
    let b = source.spec_bytes();
    let n = b.len() as int;
    assert(q.take(n) =~= b);
    if source@.len() > 0 && source@.last() == '\n' {
        lemma_bytes_end_with_newline(source@);
        if interactive {
            assert(q =~= b);
        } else {
            assert(q =~= b.push(0x04u8));
        }
    } else {
        if interactive {
            assert(q =~= b.push(0x0au8));
        } else {
            assert(q =~= b.push(0x0au8).push(0x04u8));
        }
    }
}

} // verus!
