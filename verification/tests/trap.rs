use multihart::interrupt::{
    handle_exception, handle_external_interrupt, trap_handler, Fault, FaultCause,
    CAUSE_INTERRUPT_FLAG, ECALL_WIDTH,
};
use multihart::plic;
use multihart::sbi;
use multihart::soc;
use multihart::task::context::RegisterFile;
use multihart::task::scheduler::Scheduler;
use multihart::task::Task;
use multihart::timer::INTERVAL;
use multihart::uart;

fn zero_regs() -> RegisterFile {
    RegisterFile {
        ra: 0,
        sp: 0,
        s0: 0,
        s1: 0,
        s2: 0,
        s3: 0,
        s4: 0,
        s5: 0,
        s6: 0,
        s7: 0,
        s8: 0,
        s9: 0,
        s10: 0,
        s11: 0,
    }
}

const TRAMPOLINE: usize = 0x8000_1000;

#[test]
fn fault_trap_illegal_instruction() {
    // A task executing an illegal instruction is fatal: the dispatcher
    // reports the cause and the interrupted pc, and never schedules.
    let mut sched = Scheduler::with_task(Task::main());
    sched.add_task(Task::new_user(TRAMPOLINE, 0x100_0000, 0, 0));
    let mut regs = zero_regs();
    let r = trap_handler(&mut sched, &mut regs, 2, 0x8000_4444, 0);
    let fault = r.expect_err("an illegal instruction is a fault");
    assert_eq!(fault.cause, FaultCause::IllegalInstruction);
    assert_eq!(fault.epc, 0x8000_4444);
    // The scheduler was not touched: the queued task still waits.
    assert_eq!(sched.queue_len(), 1);
}

#[test]
fn every_fault_code_maps_to_its_cause() {
    for (code, cause) in [
        (1u64, FaultCause::InstructionAccessFault),
        (2, FaultCause::IllegalInstruction),
        (5, FaultCause::LoadAccessFault),
        (7, FaultCause::StoreAccessFault),
        (13, FaultCause::Unknown { code: 13 }),
    ] {
        let r = handle_exception(code, 0x1000);
        assert_eq!(r, Err(Fault { cause, epc: 0x1000 }));
    }
}

#[test]
fn ecall_steps_past_the_instruction() {
    for code in [8u64, 9, 11] {
        assert_eq!(handle_exception(code, 0x8000_0100), Ok(0x8000_0100 + ECALL_WIDTH));
    }
}

#[test]
fn timer_trap_rearms_and_schedules() {
    let mut sched = Scheduler::with_task(Task::main());
    sched.add_task(Task::new_user(TRAMPOLINE, 0x200_0000, 0, 0));
    let mut regs = zero_regs();
    let now = 5_000_000;
    let cause = CAUSE_INTERRUPT_FLAG | 7;
    let t = trap_handler(&mut sched, &mut regs, cause, 0x8000_2000, now).unwrap();
    // The next tick is armed one interval ahead.
    let rearm = t.rearm.expect("a timer trap arms the next tick");
    assert_eq!(rearm.extension, sbi::EID_TIME);
    assert_eq!(rearm.arg0, (now + INTERVAL) as usize);
    assert!(!t.clear_ipi);
    assert!(!t.claim_external);
    // The fresh task was picked: it resumes at its trampoline.
    assert_eq!(t.new_epc, TRAMPOLINE);
    // The preempted main task keeps the interrupted pc.
    assert_eq!(sched.queued(0).context.pc, 0x8000_2000);
}

#[test]
fn software_trap_clears_ipi_and_schedules() {
    let mut sched = Scheduler::with_task(Task::main());
    sched.add_task(Task::new_user(TRAMPOLINE, 0x300_0000, 0, 0));
    let mut regs = zero_regs();
    let cause = CAUSE_INTERRUPT_FLAG | 3;
    let t = trap_handler(&mut sched, &mut regs, cause, 0x8000_3000, 0).unwrap();
    assert!(t.clear_ipi);
    assert!(t.rearm.is_none());
    assert_eq!(t.new_epc, TRAMPOLINE);
}

#[test]
fn external_trap_runs_claim_cycle_and_resumes() {
    let mut sched = Scheduler::with_task(Task::main());
    let mut regs = zero_regs();
    let cause = CAUSE_INTERRUPT_FLAG | 11;
    let t = trap_handler(&mut sched, &mut regs, cause, 0x8000_5000, 0).unwrap();
    assert!(t.claim_external);
    assert_eq!(t.new_epc, 0x8000_5000);
    assert!(t.rearm.is_none());
    assert!(!t.clear_ipi);
}

#[test]
fn unused_interrupt_source_is_ignored() {
    let mut sched = Scheduler::with_task(Task::main());
    let mut regs = zero_regs();
    let cause = CAUSE_INTERRUPT_FLAG | 1;
    let t = trap_handler(&mut sched, &mut regs, cause, 0x8000_6000, 0).unwrap();
    assert_eq!(t.new_epc, 0x8000_6000);
    assert!(t.rearm.is_none());
    assert!(!t.clear_ipi);
    assert!(!t.claim_external);
}

#[test]
fn ecall_trap_schedules_past_the_call() {
    // A task yielding by ecall: the dispatcher schedules, and the yielding
    // task will resume after the ecall, not on it.
    let mut sched = Scheduler::with_task(Task::main());
    sched.add_task(Task::new_user(TRAMPOLINE, 0x400_0000, 0, 0));
    let mut regs = zero_regs();
    let t = trap_handler(&mut sched, &mut regs, 9, 0x8000_7000, 0).unwrap();
    assert_eq!(t.new_epc, TRAMPOLINE);
    assert_eq!(sched.queued(0).context.pc, 0x8000_7000 + ECALL_WIDTH);
}

#[test]
fn external_irq_echoes_uart_byte() {
    let r = handle_external_interrupt(soc::UART_IRQ, Some(b'h'));
    assert_eq!(
        r.unwrap(),
        multihart::interrupt::ExternalIrqOutcome { echo: Some(b'h'), complete: Some(soc::UART_IRQ) }
    );
    // No byte ready: still complete the claim, nothing to echo.
    let r = handle_external_interrupt(soc::UART_IRQ, None);
    assert_eq!(r.unwrap().echo, None);
    assert_eq!(r.unwrap().complete, Some(soc::UART_IRQ));
}

#[test]
fn external_irq_zero_claim_is_a_no_op() {
    let out = handle_external_interrupt(0, Some(b'x')).unwrap();
    assert_eq!(out.echo, None);
    assert_eq!(out.complete, None);
}

#[test]
fn external_irq_unknown_source_is_fatal() {
    assert_eq!(handle_external_interrupt(4, None), Err(4));
}

#[test]
fn sbi_calls_are_marshalled_exactly() {
    let c = sbi::hart_start(5, 0x8000_0000, 0x8400_0000);
    assert_eq!(
        c,
        sbi::SbiCall {
            extension: 0x48534D,
            function: 0,
            arg0: 5,
            arg1: 0x8000_0000,
            arg2: 0x8400_0000
        }
    );
    let c = sbi::hart_suspend();
    assert_eq!(c.extension, 0x48534D);
    assert_eq!(c.function, 3);
    let c = sbi::set_timer(0x1_0000_0001);
    assert_eq!(c.extension, 0x54494D45);
    assert_eq!(c.arg0, 0x1_0000_0001usize);
    let c = sbi::send_ipi(0b10);
    assert_eq!(c.extension, 0x735049);
    assert_eq!(c.arg0, 2);
    let c = sbi::console_putchar(b'A' as usize);
    assert_eq!(c.extension, 1);
    assert_eq!(c.arg0, 65);
    let c = sbi::console_getchar();
    assert_eq!(c.extension, 2);
    assert!(sbi::call_succeeded(0));
    assert!(!sbi::call_succeeded(3));
}

#[test]
fn plic_register_addresses() {
    assert_eq!(plic::priority_ptr(soc::UART_IRQ), 0x0c00_0000 + 40);
    assert_eq!(plic::threshold_ptr(0), 0x0c20_0000);
    assert_eq!(plic::threshold_ptr(1), 0x0c20_2000);
    assert_eq!(plic::claim_complete_ptr(0), 0x0c20_0004);
    assert_eq!(plic::claim_complete_ptr(1), 0x0c20_2004);
    assert_eq!(plic::enable_ptr(0, soc::UART_IRQ), 0x0c00_2000);
    assert_eq!(plic::enable_ptr(1, soc::UART_IRQ), 0x0c00_2100);
    assert_eq!(soc::mtimecmp(0), 0x0200_4000);
    assert_eq!(soc::mtimecmp(3), 0x0200_4018);
}

#[test]
fn plic_init_routes_the_uart() {
    let writes = plic::init(1, 0b100);
    assert_eq!(writes.len(), 3);
    assert_eq!(writes[0].addr, 0x0c00_0000 + 40);
    assert_eq!(writes[0].value, 1);
    assert_eq!(writes[1].addr, 0x0c20_2000);
    assert_eq!(writes[1].value, 0);
    assert_eq!(writes[2].addr, 0x0c00_2100);
    assert_eq!(writes[2].value, 0b100 | (1 << 10));
}

#[test]
fn uart_init_sequence_and_status_bits() {
    let writes = uart::init();
    assert_eq!(writes.len(), 3);
    assert_eq!((writes[0].addr, writes[0].value), (0x1000_0001, 0x00));
    assert_eq!((writes[1].addr, writes[1].value), (0x1000_0002, 0x07));
    assert_eq!((writes[2].addr, writes[2].value), (0x1000_0001, 0x01));

    assert!(uart::rx_ready(0b0000_0001));
    assert!(!uart::rx_ready(0b0010_0000));
    assert!(uart::tx_idle(0b0010_0000));
    assert!(!uart::tx_idle(0b0000_0001));
}
