//! The descriptor table, its selectors, and the task-state record that gives
//! the double-fault handler a stack of its own.
use vstd::prelude::*;
use crate::once::{fill_step, WriteOnce};
use x86_64::registers::segmentation::SegmentSelector;
use x86_64::structures::gdt::{Descriptor, GlobalDescriptorTable};
use x86_64::structures::tss::TaskStateSegment;
use x86_64::VirtAddr;

verus! {

/// Slot of the task-state record's interrupt-stack table that the
/// double-fault vector switches to.
pub const DOUBLE_FAULT_IST_INDEX: u16 = 0;

/// Size in bytes of the region reserved as the double-fault stack.
pub const STACK_SIZE: usize = 4096 * 5;

/// Number of slots in the interrupt-stack table.
pub const IST_SLOTS: usize = 7;

/// The word of a 64-bit kernel code segment: present, ring 0, executable,
/// long mode, flat limit.
pub const KERNEL_CODE64_WORD: u64 = 0x00af_9b00_0000_ffff;

/// Size in bytes of a task-state record; a fresh record's I/O-map base
/// points just past it.
pub const TSS_SIZE: u16 = 104;

/// Number of entries a default descriptor table can hold.
pub const GDT_CAPACITY: usize = 8;

#[verifier::external_type_specification]
#[verifier::external_body]
pub struct ExGlobalDescriptorTable<const MAX: usize>(GlobalDescriptorTable<MAX>);

#[verifier::external_type_specification]
#[verifier::external_body]
pub struct ExTaskStateSegment(TaskStateSegment);

#[verifier::external_type_specification]
pub struct ExDescriptor(Descriptor);

#[verifier::external_type_specification]
pub struct ExSegmentSelector(SegmentSelector);

/// The raw entries of a descriptor table, the leading null entry included.
pub uninterp spec fn gdt_entries(g: GlobalDescriptorTable) -> Seq<u64>;

/// The stack pointers of a task-state record's interrupt-stack table.
pub uninterp spec fn interrupt_stacks(t: TaskStateSegment) -> Seq<u64>;

/// A task-state record's I/O-map base offset.
pub uninterp spec fn io_map_base(t: TaskStateSegment) -> u16;

/// Segment limit of the descriptor for a record whose I/O-map base is
/// `base`, with no I/O map: the larger of the record's size and the base,
/// less one.
pub open spec fn tss_limit(base: u16) -> u64 {
    if base > TSS_SIZE {
        (base - 1) as u64
    } else {
        (TSS_SIZE - 1) as u64
    }
}

/// Bits 48..64 repeat bit 47.
pub open spec fn is_canonical(a: u64) -> bool {
    a < 0x8000_0000_0000 || a >= 0xffff_8000_0000_0000
}

/// A descriptor's first word.
pub open spec fn descriptor_low(d: Descriptor) -> u64 {
    match d {
        Descriptor::UserSegment(v) => v,
        Descriptor::SystemSegment(v, _) => v,
    }
}

/// Privilege level stored in bits 45..47 of a descriptor's low word.
pub open spec fn descriptor_dpl(d: Descriptor) -> u16 {
    ((descriptor_low(d) >> 45u64) & 3u64) as u16
}

/// Number of table entries a descriptor occupies.
pub open spec fn descriptor_width(d: Descriptor) -> nat {
    match d {
        Descriptor::UserSegment(_) => 1,
        Descriptor::SystemSegment(_, _) => 2,
    }
}

/// The raw words a descriptor adds to a table.
pub open spec fn descriptor_words(d: Descriptor) -> Seq<u64> {
    match d {
        Descriptor::UserSegment(v) => seq![v],
        Descriptor::SystemSegment(lo, hi) => seq![lo, hi],
    }
}

/// The low word of an available 64-bit task-state descriptor: present,
/// ring 0, a system segment of type 0b1001.
pub open spec fn is_tss_low_word(w: u64) -> bool {
    &&& (w >> 40u64) & 0xfu64 == 9
    &&& (w >> 44u64) & 1u64 == 0
    &&& (w >> 45u64) & 3u64 == 0
    &&& (w >> 47u64) & 1u64 == 1
}

/// Table index a selector refers to.
pub open spec fn selector_index(s: SegmentSelector) -> u16 {
    (s.0 >> 3u16) as u16
}

/// Requested privilege level a selector carries.
pub open spec fn selector_rpl(s: SegmentSelector) -> u16 {
    (s.0 & 3u16) as u16
}

/// Relies on GlobalDescriptorTable::new: a table holding only the null entry.
#[verifier::external_body]
fn new_table() -> (r: GlobalDescriptorTable)
    ensures
        gdt_entries(r) == seq![0u64],
{
    GlobalDescriptorTable::new()
}

/// Relies on GlobalDescriptorTable::append: the descriptor's words go after
/// the current entries, and the selector names the first of them with the
/// descriptor's privilege level. It panics when the table has no room.
#[verifier::external_body]
fn append_entry(gdt: &mut GlobalDescriptorTable, entry: Descriptor) -> (r: SegmentSelector)
    requires
        gdt_entries(*old(gdt)).len() + descriptor_width(entry) <= GDT_CAPACITY,
    ensures
        gdt_entries(*final(gdt)) == gdt_entries(*old(gdt)) + descriptor_words(entry),
        r.0 == ((gdt_entries(*old(gdt)).len() as u16) << 3u16) | descriptor_dpl(entry),
{
    gdt.append(entry)
}

/// Relies on Descriptor::kernel_code_segment: the one word of
/// DescriptorFlags::KERNEL_CODE64, privilege level 0.
#[verifier::external_body]
fn kernel_code_segment() -> (r: Descriptor)
    ensures
        r == Descriptor::UserSegment(KERNEL_CODE64_WORD),
        descriptor_dpl(r) == 0,
{
    Descriptor::kernel_code_segment()
}

/// Relies on Descriptor::tss_segment (through tss_segment_raw with no I/O
/// map): a two-word system segment, present, of type 0b1001 and privilege
/// level 0, whose limit is the larger of the record's size and its I/O-map
/// base, less one; the base words point at the record.
#[verifier::external_body]
fn tss_segment(tss: &'static TaskStateSegment) -> (r: Descriptor)
    ensures
        r is SystemSegment,
        is_tss_low_word(descriptor_low(r)),
        descriptor_low(r) & 0xffffu64 == tss_limit(io_map_base(*tss)),
        descriptor_dpl(r) == 0,
{
    Descriptor::tss_segment(tss)
}

/// Relies on TaskStateSegment::new: every interrupt-stack slot is zero, and
/// the I/O-map base is the record's size.
#[verifier::external_body]
fn new_task_state() -> (r: TaskStateSegment)
    ensures
        interrupt_stacks(r) == Seq::new(IST_SLOTS as nat, |i: int| 0u64),
        io_map_base(r) == TSS_SIZE,
{
    TaskStateSegment::new()
}

/// Relies on VirtAddr::new, which panics on an address that is not
/// canonical, and on the record's public interrupt-stack table.
#[verifier::external_body]
fn set_interrupt_stack(tss: &mut TaskStateSegment, slot: usize, top: u64)
    requires
        slot < IST_SLOTS,
        is_canonical(top),
    ensures
        interrupt_stacks(*final(tss)) == interrupt_stacks(*old(tss)).update(slot as int, top),
        io_map_base(*final(tss)) == io_map_base(*old(tss)),
{
    tss.interrupt_stack_table[slot] = VirtAddr::new(top);
}

/// The selectors of the two segments the kernel loads at boot.
pub struct Selectors {
    pub code_selector: SegmentSelector,
    pub tss_selector: SegmentSelector,
}

/// Top of the double-fault stack for a reserved region starting at
/// `stack_start`: stacks grow down, so the region's end.
pub open spec fn double_fault_stack_top(stack_start: u64) -> int {
    stack_start + STACK_SIZE
}

/// `t` is the task-state record for the reserved region starting at
/// `stack_start`: its double-fault slot holds the region's top, every other
/// slot is zero, and it has no I/O map.
pub open spec fn task_state_for(t: TaskStateSegment, stack_start: u64) -> bool {
    &&& io_map_base(t) == TSS_SIZE
    &&& interrupt_stacks(t).len() == IST_SLOTS
    &&& interrupt_stacks(t)[DOUBLE_FAULT_IST_INDEX as int] == double_fault_stack_top(stack_start)
    &&& forall|i: int|
        0 <= i < IST_SLOTS && i != DOUBLE_FAULT_IST_INDEX ==> interrupt_stacks(t)[i] == 0
}

/// Builds the task-state record whose double-fault slot holds the top of the
/// reserved region starting at `stack_start`; all other slots stay zero.
pub fn build_task_state(stack_start: u64) -> (r: TaskStateSegment)
    requires
        double_fault_stack_top(stack_start) <= u64::MAX,
        is_canonical(double_fault_stack_top(stack_start) as u64),
    ensures
        task_state_for(r, stack_start),
{
    let mut tss = new_task_state();
    let top: u64 = stack_start + STACK_SIZE as u64;
    set_interrupt_stack(&mut tss, DOUBLE_FAULT_IST_INDEX as usize, top);
    tss
}

/// `t` is the kernel's descriptor table with its selectors: the null entry,
/// the 64-bit kernel code segment at index 1, the task-state descriptor's
/// two words at indexes 2 and 3, limited to `tss` as its I/O-map base
/// says; both selectors ask for ring 0.
pub open spec fn descriptor_table_built(
    t: (GlobalDescriptorTable, Selectors),
    tss: TaskStateSegment,
) -> bool {
    &&& gdt_entries(t.0).len() == 4
    &&& gdt_entries(t.0)[0] == 0
    &&& gdt_entries(t.0)[1] == KERNEL_CODE64_WORD
    &&& is_tss_low_word(gdt_entries(t.0)[2])
    &&& gdt_entries(t.0)[2] & 0xffffu64 == tss_limit(io_map_base(tss))
    &&& selector_index(t.1.code_selector) == 1
    &&& selector_rpl(t.1.code_selector) == 0
    &&& selector_index(t.1.tss_selector) == 2
    &&& selector_rpl(t.1.tss_selector) == 0
}

/// Builds the descriptor table: the null entry, the kernel code segment,
/// then the two words of the task-state segment for `tss`.
pub fn build_descriptor_table(tss: &'static TaskStateSegment) -> (r: (
    GlobalDescriptorTable,
    Selectors,
))
    ensures
        descriptor_table_built(r, *tss),
{
    let mut gdt = new_table();
    let code_selector = append_entry(&mut gdt, kernel_code_segment());
    let tss_descriptor = tss_segment(tss);
    let tss_selector = append_entry(&mut gdt, tss_descriptor);
    assert(gdt_entries(gdt) =~= seq![0u64] + descriptor_words(
        Descriptor::UserSegment(KERNEL_CODE64_WORD),
    ) + descriptor_words(tss_descriptor));
    proof {
        let c = code_selector.0;
        let t = tss_selector.0;
        assert(c >> 3u16 == 1 && c & 3u16 == 0) by (bit_vector)
            requires
                c == ((1u16 << 3u16) | 0u16),
        ;
        assert(t >> 3u16 == 2 && t & 3u16 == 0) by (bit_vector)
            requires
                t == ((2u16 << 3u16) | 0u16),
        ;
    }
    (gdt, Selectors { code_selector, tss_selector })
}

/// Builds the task-state record into `slot` unless it holds one already; a
/// built record is kept as it is.
pub fn init_task_state(slot: &mut WriteOnce<TaskStateSegment>, stack_start: u64)
    requires
        double_fault_stack_top(stack_start) <= u64::MAX,
        is_canonical(double_fault_stack_top(stack_start) as u64),
    ensures
        fill_step(*old(slot), *final(slot), |t: TaskStateSegment| task_state_for(t, stack_start)),
{
    let make = move || -> (r: TaskStateSegment)
        requires
            double_fault_stack_top(stack_start) <= u64::MAX,
            is_canonical(double_fault_stack_top(stack_start) as u64),
        ensures
            task_state_for(r, stack_start),
        { build_task_state(stack_start) };
    slot.get_or_init(make);
}

/// Builds the descriptor table for `tss` into `slot` unless it holds one
/// already; a built table is kept as it is.
pub fn init_descriptor_table(
    slot: &mut WriteOnce<(GlobalDescriptorTable, Selectors)>,
    tss: &'static TaskStateSegment,
)
    ensures
        fill_step(*old(slot), *final(slot), |t: (GlobalDescriptorTable, Selectors)| descriptor_table_built(t, *tss)),
{
    let make = move || -> (r: (GlobalDescriptorTable, Selectors))
        ensures
            descriptor_table_built(r, *tss),
        { build_descriptor_table(tss) };
    slot.get_or_init(make);
}

/// The task-state record and the descriptor table are built once: two
/// initialisations of fresh slots build each a single time, and the second
/// keeps what the first built.
pub proof fn lemma_descriptor_tables_built_once(
    tss0: WriteOnce<TaskStateSegment>,
    tss1: WriteOnce<TaskStateSegment>,
    tss2: WriteOnce<TaskStateSegment>,
    stack_start: u64,
    gdt0: WriteOnce<(GlobalDescriptorTable, Selectors)>,
    gdt1: WriteOnce<(GlobalDescriptorTable, Selectors)>,
    gdt2: WriteOnce<(GlobalDescriptorTable, Selectors)>,
    tss: &TaskStateSegment,
)
    requires
        tss0.value() is None && tss0.builds() == 0,
        fill_step(tss0, tss1, |t: TaskStateSegment| task_state_for(t, stack_start)),
        fill_step(tss1, tss2, |t: TaskStateSegment| task_state_for(t, stack_start)),
        gdt0.value() is None && gdt0.builds() == 0,
        fill_step(gdt0, gdt1, |t: (GlobalDescriptorTable, Selectors)| descriptor_table_built(t, *tss)),
        fill_step(gdt1, gdt2, |t: (GlobalDescriptorTable, Selectors)| descriptor_table_built(t, *tss)),
    ensures
        tss2.value() == tss1.value(),
        tss2.builds() == 1,
        task_state_for(tss2.value().unwrap(), stack_start),
        gdt2.value() == gdt1.value(),
        gdt2.builds() == 1,
        descriptor_table_built(gdt2.value().unwrap(), *tss),
{
}

/// One step of activating the descriptor table.
#[derive(Debug, Clone, Copy)]
pub enum ActivationStep {
    /// Load the table into the table register.
    LoadTable,
    /// Reload the code-segment register with this selector.
    ReloadCodeSegment(SegmentSelector),
    /// Load the task register with this selector.
    LoadTaskRegister(SegmentSelector),
}

/// The activation order the hardware requires: the table first, then the
/// code segment, then the task register.
pub open spec fn activation_steps_spec(selectors: Selectors) -> Seq<ActivationStep> {
    seq![
        ActivationStep::LoadTable,
        ActivationStep::ReloadCodeSegment(selectors.code_selector),
        ActivationStep::LoadTaskRegister(selectors.tss_selector),
    ]
}

/// The steps that activate a built descriptor table, in the order they must
/// run; done once, at boot, before interrupts are unmasked.
pub fn activation_steps(selectors: &Selectors) -> (r: Vec<ActivationStep>)
    ensures
        r@ == activation_steps_spec(*selectors),
{
    vec![
        ActivationStep::LoadTable,
        ActivationStep::ReloadCodeSegment(selectors.code_selector),
        ActivationStep::LoadTaskRegister(selectors.tss_selector),
    ]
}

} // verus!
