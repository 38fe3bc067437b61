use multihart::arch::{start_harts, BootFlag, BootStage, CpuTable};
use multihart::fdt::HartIdMap;
use multihart::interrupt::IrqState;
use multihart::sbi::{SbiCall, EID_HSM, EID_SPI};
use multihart::task::{Task, TaskKind};

const TRAMPOLINE: usize = 0x8000_1000;

fn two_hart_table() -> CpuTable {
    // Two harts with physical ids 3 and 5, each with its own stacks.
    CpuTable::build(
        &vec![3, 5],
        &vec![0x8100_0000, 0x8200_0000],
        &vec![0x8110_0000, 0x8210_0000],
    )
}

fn queue_stacks(table: &mut CpuTable, hart: usize, irq: &mut IrqState) -> Vec<usize> {
    let cpu = table.cpu_mut(hart);
    let (sched, g) = cpu.scheduler.lock(irq);
    let mut stacks = Vec::new();
    for i in 0..sched.queue_len() {
        if let TaskKind::User { stack_top } = sched.queued(i).kind {
            stacks.push(stack_top);
        }
    }
    cpu.scheduler.unlock(sched, g, irq);
    stacks
}

#[test]
fn cross_hart_spawn_ticket_distribution() {
    // Hart 0 spawns four tasks in sequence: the ticket places them on
    // harts 0, 1, 0, 1, and exactly the two remote spawns send an IPI —
    // both aimed at hart 1's physical id.
    let mut table = two_hart_table();
    let mut irq = IrqState { enabled: true };
    let mut ipis: Vec<SbiCall> = Vec::new();

    for k in 0..4usize {
        let stack_top = 0x9000_0000 + k * 0x10_0000;
        let ipi = Task::spawn(&mut table, &mut irq, 0, TRAMPOLINE, stack_top, k, 0);
        if let Some(call) = ipi {
            ipis.push(call);
        }
    }

    // Exactly two IPIs, both to hart 1's physical id (5): mask bit 5.
    assert_eq!(ipis.len(), 2);
    for call in &ipis {
        assert_eq!(call.extension, EID_SPI);
        assert_eq!(call.function, 0);
        assert_eq!(call.arg0, 1usize << 5);
    }

    // Tasks 0 and 2 landed on hart 0; tasks 1 and 3 on hart 1, in order.
    let h0 = queue_stacks(&mut table, 0, &mut irq);
    let h1 = queue_stacks(&mut table, 1, &mut irq);
    assert_eq!(h0, vec![0x9000_0000, 0x9020_0000]);
    assert_eq!(h1, vec![0x9010_0000, 0x9030_0000]);
}

#[test]
fn local_spawn_sends_no_ipi() {
    let mut table = two_hart_table();
    let mut irq = IrqState { enabled: true };
    // Ticket 0 targets hart 0; a spawn from hart 0 needs no wakeup.
    let ipi = Task::spawn(&mut table, &mut irq, 0, TRAMPOLINE, 0xA000_0000, 0, 0);
    assert!(ipi.is_none());
    // Ticket 1 targets hart 1; a spawn from hart 1 is local too.
    let ipi = Task::spawn(&mut table, &mut irq, 1, TRAMPOLINE, 0xA010_0000, 0, 0);
    assert!(ipi.is_none());
    // Interrupt state came back as it went in.
    assert!(irq.enabled);
}

#[test]
fn remote_spawn_wakes_target_hart() {
    let mut table = two_hart_table();
    let mut irq = IrqState { enabled: false };
    // Ticket 0 targets hart 0; spawning from hart 1 must send the IPI to
    // hart 0's physical id (3).
    let ipi = Task::spawn(&mut table, &mut irq, 1, TRAMPOLINE, 0xB000_0000, 0, 0);
    let call = ipi.expect("a cross-hart spawn sends a software interrupt");
    assert_eq!(call.extension, EID_SPI);
    assert_eq!(call.arg0, 1usize << 3);
    assert!(!irq.enabled);
}

#[test]
fn spawned_task_has_exactly_one_owner() {
    // Across both harts, the fresh task is referenced by exactly one
    // scheduler.
    let mut table = two_hart_table();
    let mut irq = IrqState { enabled: true };
    let stack_top = 0xC000_0000;
    Task::spawn(&mut table, &mut irq, 0, TRAMPOLINE, stack_top, 0, 0);

    let mut owners = 0;
    for hart in 0..2 {
        let stacks = queue_stacks(&mut table, hart, &mut irq);
        owners += stacks.iter().filter(|s| **s == stack_top).count();
        // The current task of each hart is its Main task, not ours.
        let cpu = table.cpu_mut(hart);
        let (sched, g) = cpu.scheduler.lock(&mut irq);
        assert!(matches!(sched.task().kind, TaskKind::Main));
        cpu.scheduler.unlock(sched, g, &mut irq);
    }
    assert_eq!(owners, 1);
}

#[test]
fn cpu_table_layout() {
    let table = two_hart_table();
    assert_eq!(table.hart_count(), 2);
    for i in 0..2 {
        let cpu = table.cpu(i);
        assert_eq!(cpu.logical_id, i);
    }
    assert_eq!(table.cpu(0).physical_id, 3);
    assert_eq!(table.cpu(1).physical_id, 5);
    assert_eq!(table.cpu(1).stack_top, 0x8200_0000);
    assert_eq!(table.cpu(1).trap_stack_top, 0x8210_0000);
}

#[test]
fn start_harts_skips_the_boot_hart() {
    let table = two_hart_table();
    let entry = 0x8000_0000;
    let calls = start_harts(&table, entry);
    assert_eq!(calls.len(), 1);
    // One hart-start: hart 1's physical id, the entry point, and its own
    // stack top as the opaque boot word.
    assert_eq!(calls[0].extension, EID_HSM);
    assert_eq!(calls[0].function, 0);
    assert_eq!(calls[0].arg0, 5);
    assert_eq!(calls[0].arg1, entry);
    assert_eq!(calls[0].arg2, 0x8200_0000);
}

#[test]
fn hart_id_map_puts_boot_hart_first() {
    let map = HartIdMap::build(&vec![3, 1, 4], 1);
    assert_eq!(map.hart_count(), 3);
    assert_eq!(map.to_physical(0), 1);
    assert_eq!(map.to_physical(1), 3);
    assert_eq!(map.to_physical(2), 4);
    assert_eq!(map.to_logical(4), 2);
    assert_eq!(map.to_logical(1), 0);
    assert!(map.knows_physical(3));
    assert!(!map.knows_physical(9));
}

#[test]
fn hart_id_map_survives_broken_device_tree() {
    // An empty walk still yields a map: the boot hart is running, so it
    // is in.
    let map = HartIdMap::build(&vec![], 2);
    assert_eq!(map.hart_count(), 1);
    assert_eq!(map.to_physical(0), 2);

    // A walk that missed the boot hart gets it prepended.
    let map = HartIdMap::build(&vec![4, 6], 0);
    assert_eq!(map.hart_count(), 3);
    assert_eq!(map.to_physical(0), 0);
    assert_eq!(map.to_physical(1), 4);
    assert_eq!(map.to_physical(2), 6);
}

#[test]
fn boot_flag_advances_through_stages() {
    let mut flag = BootFlag::new();
    assert_eq!(flag.load(), BootStage::ColdBoot);
    flag.advance(BootStage::BssReady);
    assert_eq!(flag.load(), BootStage::BssReady);
    // Re-storing the same stage is allowed; moving forward is.
    flag.advance(BootStage::BssReady);
    flag.advance(BootStage::TablesReady);
    assert_eq!(flag.load(), BootStage::TablesReady);
}
