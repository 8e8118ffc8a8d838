use blog_os::gdt::{
    activation_steps, build_descriptor_table, build_task_state, init_descriptor_table,
    init_task_state, ActivationStep, DOUBLE_FAULT_IST_INDEX, KERNEL_CODE64_WORD, STACK_SIZE,
};
use blog_os::interrupts::{
    build_vector_table, controller_layout, handler_steps, init_idt, Gate, Handler,
    InterruptIndex, InterruptTables, Message, Step, PIC_1_OFFSET, PIC_2_OFFSET, message_text,
};
use blog_os::once::WriteOnce;
use x86_64::structures::tss::TaskStateSegment;
use x86_64::PrivilegeLevel;

#[test]
fn timer_index_is_first_remapped_vector() {
    assert_eq!(InterruptIndex::Timer.as_u8(), 32);
    assert_eq!(InterruptIndex::Timer.as_usize(), 32usize);
}

#[test]
fn controllers_sit_at_32_and_40() {
    let layout = controller_layout();
    assert_eq!(layout.primary_offset, 32);
    assert_eq!(layout.secondary_offset, 40);
    assert_eq!(PIC_1_OFFSET, 32);
    assert_eq!(PIC_2_OFFSET, 40);
}

#[test]
fn vector_table_binds_the_three_handlers() {
    let idt = build_vector_table();
    assert_eq!(
        idt.entry(3),
        Some(Gate { handler: Handler::Breakpoint, stack_index: None })
    );
    assert_eq!(
        idt.entry(8),
        Some(Gate { handler: Handler::DoubleFault, stack_index: Some(DOUBLE_FAULT_IST_INDEX) })
    );
    assert_eq!(idt.entry(32), Some(Gate { handler: Handler::Timer, stack_index: None }));
    for v in [0u8, 1, 2, 4, 7, 9, 13, 14, 31, 33, 40, 255] {
        assert_eq!(idt.entry(v), None, "vector {}", v);
    }
}

#[test]
fn init_idt_builds_once_and_installs() {
    let mut tables = InterruptTables::new();
    assert!(!tables.is_loaded());
    assert_eq!(tables.dispatch(3), None);
    init_idt(&mut tables);
    assert!(tables.is_loaded());
    let first = tables.dispatch(8);
    init_idt(&mut tables);
    assert!(tables.is_loaded());
    assert_eq!(tables.dispatch(8), first);
    assert_eq!(
        tables.dispatch(8),
        Some(Gate { handler: Handler::DoubleFault, stack_index: Some(0) })
    );
    assert_eq!(tables.dispatch(32).map(|g| g.handler), Some(Handler::Timer));
    assert_eq!(tables.dispatch(100), None);
}

#[test]
fn write_once_builds_a_single_time() {
    let builds = std::cell::Cell::new(0u32);
    let mut slot: WriteOnce<u32> = WriteOnce::new();
    assert!(!slot.is_built());
    assert_eq!(slot.get(), None);
    slot.get_or_init(|| {
        builds.set(builds.get() + 1);
        7
    });
    slot.get_or_init(|| {
        builds.set(builds.get() + 1);
        9
    });
    assert!(slot.is_built());
    assert_eq!(slot.get(), Some(&7));
    assert_eq!(builds.get(), 1);
}

#[test]
fn timer_handler_acknowledges_once() {
    let steps = handler_steps(Handler::Timer);
    assert_eq!(
        steps,
        vec![Step::Print(Message::TimerTick), Step::Acknowledge(32), Step::Resume]
    );
    let mut acks = 0;
    let mut ticks = 0;
    for h in [Handler::Timer, Handler::Breakpoint, Handler::Timer, Handler::Timer] {
        if h == Handler::Timer {
            ticks += 1;
        }
        acks += handler_steps(h).iter().filter(|s| matches!(s, Step::Acknowledge(_))).count();
    }
    assert_eq!(acks, 3);
    assert_eq!(acks, ticks);
}

#[test]
fn breakpoint_resumes_without_stopping() {
    let steps = handler_steps(Handler::Breakpoint);
    assert_eq!(steps, vec![Step::Print(Message::BreakpointReport), Step::Resume]);
    assert!(!steps.contains(&Step::FailStop));
}

#[test]
fn double_fault_stops() {
    let steps = handler_steps(Handler::DoubleFault);
    assert_eq!(steps, vec![Step::Print(Message::DoubleFaultReport), Step::FailStop]);
}

#[test]
fn task_state_points_at_reserved_stack_top() {
    let tss = build_task_state(0x0010_0000);
    let ist = tss.interrupt_stack_table;
    assert_eq!(ist[0].as_u64(), 0x0010_0000 + STACK_SIZE as u64);
    for slot in 1..7 {
        assert_eq!(ist[slot].as_u64(), 0);
    }
}

#[test]
fn task_state_accepts_higher_half_stack() {
    let tss = build_task_state(0xffff_8000_0000_0000);
    let ist = tss.interrupt_stack_table;
    assert_eq!(ist[0].as_u64(), 0xffff_8000_0000_5000);
}

#[test]
fn descriptor_table_selectors() {
    let tss: &'static TaskStateSegment = Box::leak(Box::new(build_task_state(0x2000)));
    let (gdt, selectors) = build_descriptor_table(tss);
    assert_eq!(gdt.entries().len(), 4);
    assert_eq!(gdt.entries()[0].raw(), 0);
    assert_eq!(gdt.entries()[1].raw(), 0x00af_9b00_0000_ffff);
    assert_eq!(KERNEL_CODE64_WORD, 0x00af_9b00_0000_ffff);
    let tss_low = gdt.entries()[2].raw();
    assert_eq!((tss_low >> 40) & 0xf, 0b1001);
    assert_eq!((tss_low >> 47) & 1, 1);
    assert_eq!((tss_low >> 45) & 3, 0);
    assert_eq!(tss_low & 0xffff, 103);
    assert_eq!(selectors.code_selector.index(), 1);
    assert_eq!(selectors.code_selector.rpl(), PrivilegeLevel::Ring0);
    assert_eq!(selectors.tss_selector.index(), 2);
    assert_eq!(selectors.tss_selector.rpl(), PrivilegeLevel::Ring0);
    assert_eq!(selectors.code_selector.0, 8);
    assert_eq!(selectors.tss_selector.0, 16);
}

#[test]
fn activation_runs_table_then_code_segment_then_task_register() {
    let tss: &'static TaskStateSegment = Box::leak(Box::new(build_task_state(0x3000)));
    let (_gdt, selectors) = build_descriptor_table(tss);
    let steps = activation_steps(&selectors);
    assert_eq!(steps.len(), 3);
    assert!(matches!(steps[0], ActivationStep::LoadTable));
    assert!(matches!(steps[1], ActivationStep::ReloadCodeSegment(s) if s.0 == 8));
    assert!(matches!(steps[2], ActivationStep::LoadTaskRegister(s) if s.0 == 16));
}

#[test]
fn handler_message_texts() {
    assert_eq!(
        message_text(Message::BreakpointReport, "Frame { ip: 1 }"),
        "EXCEPTION: BREAKPOINT\nFrame { ip: 1 }\n"
    );
    assert_eq!(
        message_text(Message::DoubleFaultReport, "Frame { ip: 2 }"),
        "EXCEPTION: DOUBLE FAULT\nFrame { ip: 2 }"
    );
    assert_eq!(message_text(Message::TimerTick, "ignored"), ".");
}

#[test]
fn task_state_slot_is_filled_once() {
    let mut slot: WriteOnce<TaskStateSegment> = WriteOnce::new();
    init_task_state(&mut slot, 0x4000);
    init_task_state(&mut slot, 0x9000);
    let tss = slot.get().unwrap();
    let ist = tss.interrupt_stack_table;
    assert_eq!(ist[0].as_u64(), 0x4000 + STACK_SIZE as u64);
}

#[test]
fn descriptor_table_slot_is_filled_once() {
    let tss: &'static TaskStateSegment = Box::leak(Box::new(build_task_state(0x5000)));
    let mut slot = WriteOnce::new();
    init_descriptor_table(&mut slot, tss);
    let first = slot.get().unwrap().0.entries()[2].raw();
    let other: &'static TaskStateSegment = Box::leak(Box::new(build_task_state(0x6000)));
    init_descriptor_table(&mut slot, other);
    let (gdt, selectors) = slot.get().unwrap();
    assert_eq!(gdt.entries()[2].raw(), first);
    assert_eq!(selectors.code_selector.index(), 1);
    assert_eq!(selectors.tss_selector.index(), 2);
}

#[test]
fn task_state_limit_follows_io_map_base() {
    let mut record = build_task_state(0x7000);
    assert_eq!(record.iomap_base, 104);
    record.iomap_base = 200;
    let tss: &'static TaskStateSegment = Box::leak(Box::new(record));
    let (gdt, _) = build_descriptor_table(tss);
    assert_eq!(gdt.entries()[2].raw() & 0xffff, 199);
}

#[test]
fn stack_overflow_check_table_binds_only_double_fault() {
    let idt = blog_os::interrupts::build_double_fault_check_table();
    assert_eq!(
        idt.entry(8),
        Some(Gate { handler: Handler::DoubleFault, stack_index: Some(0) })
    );
    for v in [0u8, 3, 14, 32, 255] {
        assert_eq!(idt.entry(v), None);
    }
}
