use web_sw_cor24_ocaml::config::{label_addr, pointer_bytes, OCAML_LOAD_ADDR};
use web_sw_cor24_ocaml::hex::hex_upper;
use web_sw_cor24_ocaml::runner::{
    rx_ready, Awaiting, Session, StopReason, Tick, TickAction, TickEvent, TickResult,
    DEFAULT_BATCH, EOT, INNER_BATCH,
};

/// Drains the queue through an empty UART, collecting what is sent, until
/// the session asks for a batch.
fn drain(s: &mut Session, tick: &mut Tick) -> (Vec<u8>, TickAction) {
    let mut sent = Vec::new();
    loop {
        match s.advance(tick, TickEvent::RxStatus(false)) {
            TickAction::SendByte(b) => {
                sent.push(b);
                assert_eq!(s.advance(tick, TickEvent::ByteSent), TickAction::CheckRx);
            }
            other => return (sent, other),
        }
    }
}

#[test]
fn one_shot_session_feeds_source_newline_and_eot() {
    let mut s = Session::new("print_int 42");
    let (mut tick, first) = s.tick();
    assert_eq!(first, TickAction::CheckRx);
    assert_eq!(tick.budget, DEFAULT_BATCH);
    assert_eq!(tick.awaiting, Awaiting::RxStatus);
    let (sent, next) = drain(&mut s, &mut tick);
    let mut expected = b"print_int 42\n".to_vec();
    expected.push(EOT);
    assert_eq!(sent, expected);
    assert_eq!(next, TickAction::RunBatch(INNER_BATCH));
    assert!(!s.is_awaiting_input());
    let done = s.advance(
        &mut tick,
        TickEvent::BatchRan { instructions_run: 1234, reason: StopReason::Halted, pc: 7 },
    );
    assert_eq!(done, TickAction::Finished(TickResult { done: true }));
    assert!(s.is_done());
    assert!(s.is_halted());
    assert_eq!(s.stop_reason(), "halted");
    assert_eq!(s.instructions(), 1234);
    assert_eq!(tick.total, 1234);
    assert_eq!(s.tick().1, TickAction::Finished(TickResult { done: true }));
}

#[test]
fn source_ending_in_newline_gets_no_second_newline() {
    let mut s = Session::new("1\n");
    let (mut tick, _) = s.tick();
    let (sent, _) = drain(&mut s, &mut tick);
    assert_eq!(sent, vec![b'1', b'\n', EOT]);
}

#[test]
fn waiting_byte_in_uart_runs_a_batch_first() {
    let mut s = Session::new("x");
    let (mut tick, _) = s.tick();
    assert_eq!(
        s.advance(&mut tick, TickEvent::RxStatus(true)),
        TickAction::RunBatch(INNER_BATCH)
    );
    assert_eq!(tick.awaiting, Awaiting::BatchRan);
}

#[test]
fn tick_splits_its_budget_into_inner_batches() {
    let mut s = Session::new("");
    let (mut tick, _) = s.tick_with_budget(70_000);
    let (_, a) = drain(&mut s, &mut tick);
    assert_eq!(a, TickAction::RunBatch(50_000));
    let a = s.advance(
        &mut tick,
        TickEvent::BatchRan { instructions_run: 50_000, reason: StopReason::CycleLimit, pc: 0 },
    );
    assert_eq!(a, TickAction::CheckRx);
    assert_eq!(s.advance(&mut tick, TickEvent::RxStatus(true)), TickAction::RunBatch(20_000));
    let a = s.advance(
        &mut tick,
        TickEvent::BatchRan { instructions_run: 20_000, reason: StopReason::CycleLimit, pc: 0 },
    );
    assert_eq!(a, TickAction::Finished(TickResult { done: false }));
    assert!(!s.is_done());
    assert_eq!(s.instructions(), 70_000);
}

#[test]
fn zero_budget_tick_ends_at_once() {
    let s = Session::new("1");
    assert_eq!(s.tick_with_budget(0).1, TickAction::Finished(TickResult { done: false }));
}

fn stop_after(reason: StopReason, run: u64, pc: u32) -> Session {
    let mut s = Session::new("");
    let (mut tick, _) = s.tick();
    let _ = drain(&mut s, &mut tick);
    s.advance(&mut tick, TickEvent::BatchRan { instructions_run: run, reason, pc });
    s
}

#[test]
fn stop_reasons_are_reported() {
    let s = stop_after(StopReason::InvalidInstruction(0xab), 5, 0x1234);
    assert!(s.is_done() && !s.is_halted());
    assert_eq!(s.stop_reason(), "invalid instruction 0xAB at PC=0x001234");
    assert_eq!(
        stop_after(StopReason::Breakpoint(0x10), 1, 0).stop_reason(),
        "breakpoint at 0x000010"
    );
    assert_eq!(stop_after(StopReason::Paused, 1, 0).stop_reason(), "paused");
    assert_eq!(
        stop_after(StopReason::StackOverflow(0xfeec00), 1, 0).stop_reason(),
        "stack overflow at SP=0xFEEC00"
    );
    assert_eq!(
        stop_after(StopReason::StackUnderflow(0x5), 1, 0).stop_reason(),
        "stack underflow at SP=0x000005"
    );
    let stalled = stop_after(StopReason::CycleLimit, 0, 0);
    assert!(stalled.is_done());
    assert_eq!(stalled.stop_reason(), "stalled");
    let going = stop_after(StopReason::CycleLimit, 10, 0);
    assert!(!going.is_done());
    assert_eq!(going.stop_reason(), "");
}

#[test]
fn interactive_session_waits_for_input_and_takes_lines() {
    let mut s = Session::new_interactive("let x = 1 in x\n");
    assert!(s.is_interactive());
    assert!(!s.is_awaiting_input());
    let (mut tick, _) = s.tick();
    let (sent, _) = drain(&mut s, &mut tick);
    assert_eq!(sent, b"let x = 1 in x\n".to_vec());
    assert!(s.is_awaiting_input());
    s.feed_input("42");
    assert!(!s.is_awaiting_input());
    s.advance(
        &mut tick,
        TickEvent::BatchRan { instructions_run: 10, reason: StopReason::CycleLimit, pc: 0 },
    );
    let (sent, _) = drain(&mut s, &mut tick);
    assert_eq!(sent, b"42\n".to_vec());
    assert!(s.is_awaiting_input());
}

#[test]
fn one_shot_session_ignores_input() {
    let mut s = Session::new("1");
    s.feed_input("2");
    let (mut tick, _) = s.tick();
    let (sent, _) = drain(&mut s, &mut tick);
    assert_eq!(sent, vec![b'1', b'\n', EOT]);
    assert!(!s.is_awaiting_input());
}

#[test]
fn rx_ready_reads_bit_zero() {
    assert!(rx_ready(0x01));
    assert!(rx_ready(0x03));
    assert!(!rx_ready(0x00));
    assert!(!rx_ready(0xfe));
}

#[test]
fn hex_upper_pads_and_upper_cases() {
    assert_eq!(hex_upper(0x1f, 2), "1F");
    assert_eq!(hex_upper(0xabc, 6), "000ABC");
    assert_eq!(hex_upper(0x123, 2), "123");
    assert_eq!(hex_upper(0, 0), "0");
    assert_eq!(hex_upper(0xffff_ffff, 2), "FFFFFFFF");
}

#[test]
fn label_addr_finds_first_entry() {
    let labels = [("start", 0u32), ("code_ptr", 0x1234), ("code_ptr", 5)];
    assert_eq!(label_addr(&labels, "code_ptr"), 0x1234);
    assert_eq!(label_addr(&labels, "start"), 0);
    assert_eq!(label_addr(&labels, "missing"), 0);
    assert_eq!(label_addr(&[], "code_ptr"), 0);
}

#[test]
fn pointer_bytes_are_little_endian() {
    assert_eq!(pointer_bytes(OCAML_LOAD_ADDR), (0x00, 0x00, 0x01));
    assert_eq!(pointer_bytes(0x12_3456), (0x56, 0x34, 0x12));
    assert_eq!(pointer_bytes(0xab12_3456), (0x56, 0x34, 0x12));
}
