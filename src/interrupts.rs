//! The interrupt vector table, the chained controllers' vector layout and
//! the handlers' decisions.
use vstd::prelude::*;
use crate::gdt::{
    double_fault_stack_top, interrupt_stacks, task_state_for, DOUBLE_FAULT_IST_INDEX, IST_SLOTS,
};
use x86_64::structures::tss::TaskStateSegment;
use crate::once::WriteOnce;

verus! {

/// First vector of the primary interrupt controller.
pub const PIC_1_OFFSET: u8 = 32;

/// First vector of the secondary interrupt controller.
pub const PIC_2_OFFSET: u8 = PIC_1_OFFSET + 8;

/// Hardware interrupt lines, named by the vector they surface at.
#[derive(Debug, Clone, Copy, PartialEq, Eq, Structural)]
pub enum InterruptIndex {
    Timer,
}

impl InterruptIndex {
    pub open spec fn vector(self) -> u8 {
        match self {
            InterruptIndex::Timer => PIC_1_OFFSET,
        }
    }

    pub fn as_u8(self) -> (r: u8)
        ensures
            r == self.vector(),
    {
        match self {
            InterruptIndex::Timer => PIC_1_OFFSET,
        }
    }

    pub fn as_usize(self) -> (r: usize)
        ensures
            r == self.vector() as usize,
    {
        self.as_u8() as usize
    }
}

/// Number of vectors the table dispatches.
pub const VECTOR_COUNT: usize = 256;

/// Vectors below this one are reserved for CPU exceptions.
pub const CPU_RESERVED_VECTORS: u8 = 32;

/// Width of one controller's vector range.
pub const LINES_PER_CONTROLLER: u8 = 8;

/// Vector of the breakpoint exception.
pub const BREAKPOINT_VECTOR: u8 = 3;

/// Vector of the double-fault exception.
pub const DOUBLE_FAULT_VECTOR: u8 = 8;

/// The handlers the kernel installs.
#[derive(Debug, Clone, Copy, PartialEq, Eq, Structural)]
pub enum Handler {
    Breakpoint,
    DoubleFault,
    Timer,
}

/// A present entry of the vector table: which handler runs, and on which
/// interrupt-stack slot if it switches stacks.
#[derive(Debug, Clone, Copy, PartialEq, Eq, Structural)]
pub struct Gate {
    pub handler: Handler,
    pub stack_index: Option<u16>,
}

/// The entry the kernel binds to `vector`, if any.
pub open spec fn standard_gate(vector: int) -> Option<Gate> {
    if vector == BREAKPOINT_VECTOR {
        Some(Gate { handler: Handler::Breakpoint, stack_index: None })
    } else if vector == DOUBLE_FAULT_VECTOR {
        Some(Gate { handler: Handler::DoubleFault, stack_index: Some(DOUBLE_FAULT_IST_INDEX) })
    } else if vector == InterruptIndex::Timer.vector() {
        Some(Gate { handler: Handler::Timer, stack_index: None })
    } else {
        None
    }
}

/// The kernel's vector table as a sequence of entries indexed by vector.
pub open spec fn standard_gates() -> Seq<Option<Gate>> {
    Seq::new(VECTOR_COUNT as nat, |v: int| standard_gate(v))
}

/// A table of 256 entries indexed by vector.
pub struct VectorTable {
    gates: Vec<Option<Gate>>,
}

impl View for VectorTable {
    type V = Seq<Option<Gate>>;

    closed spec fn view(&self) -> Seq<Option<Gate>> {
        self.gates@
    }
}

impl VectorTable {
    pub closed spec fn wf(&self) -> bool {
        self.gates@.len() == VECTOR_COUNT
    }

    /// A table with every vector absent.
    pub fn new() -> (r: Self)
        ensures
            r.wf(),
            r@ == Seq::new(VECTOR_COUNT as nat, |v: int| None::<Gate>),
    {
        let mut gates: Vec<Option<Gate>> = Vec::new();
        let mut i: usize = 0;
        while i < VECTOR_COUNT
            invariant
                i <= VECTOR_COUNT,
                gates@ == Seq::new(i as nat, |v: int| None::<Gate>),
            decreases VECTOR_COUNT - i,
        {
            gates.push(None);
            i = i + 1;
        }
        VectorTable { gates }
    }

    /// Binds `vector` to `handler`, running on the current stack.
    pub fn set_handler(&mut self, vector: u8, handler: Handler)
        requires
            old(self).wf(),
        ensures
            final(self).wf(),
            final(self)@ == old(self)@.update(
                vector as int,
                Some(Gate { handler, stack_index: None }),
            ),
    {
        self.gates.set(vector as usize, Some(Gate { handler, stack_index: None }));
    }

    /// Makes the handler bound to `vector` run on interrupt-stack slot
    /// `index`; an absent vector stays absent.
    pub fn set_stack_index(&mut self, vector: u8, index: u16)
        requires
            old(self).wf(),
        ensures
            final(self).wf(),
            final(self)@ == old(self)@.update(
                vector as int,
                match old(self)@[vector as int] {
                    Some(g) => Some(Gate { handler: g.handler, stack_index: Some(index) }),
                    None => None,
                },
            ),
    {
        let v = vector as usize;
        match self.gates[v] {
            Some(g) => {
                self.gates.set(v, Some(Gate { handler: g.handler, stack_index: Some(index) }));
            },
            None => {},
        }
        proof {
            assert(self.gates@ =~= old(self).gates@.update(
                vector as int,
                match old(self)@[vector as int] {
                    Some(g) => Some(Gate { handler: g.handler, stack_index: Some(index) }),
                    None => None,
                },
            ));
        }
    }

    /// The entry for `vector`: which handler runs, on which stack.
    pub fn entry(&self, vector: u8) -> (r: Option<Gate>)
        requires
            self.wf(),
        ensures
            r == self@[vector as int],
    {
        self.gates[vector as usize]
    }
}

/// Builds the kernel's vector table: breakpoint, double fault on its own
/// stack, and the timer line at the primary controller's first vector.
pub fn build_vector_table() -> (r: VectorTable)
    ensures
        r.wf(),
        r@ == standard_gates(),
{
    let mut idt = VectorTable::new();
    idt.set_handler(BREAKPOINT_VECTOR, Handler::Breakpoint);
    idt.set_handler(DOUBLE_FAULT_VECTOR, Handler::DoubleFault);
    idt.set_stack_index(DOUBLE_FAULT_VECTOR, DOUBLE_FAULT_IST_INDEX);
    idt.set_handler(InterruptIndex::Timer.as_u8(), Handler::Timer);
    assert(idt@ =~= standard_gates());
    idt
}

/// The process-wide vector table: built on first initialisation, then
/// installed for the rest of the process's life.
pub struct InterruptTables {
    table: WriteOnce<VectorTable>,
    loaded: bool,
}

impl InterruptTables {
    /// The write-once slot holding the vector table.
    pub closed spec fn slot(&self) -> WriteOnce<VectorTable> {
        self.table
    }

    /// Whether the table has been installed.
    pub closed spec fn loaded(&self) -> bool {
        self.loaded
    }

    /// The table is built at most once, is installed only once built, and
    /// is the kernel's table once built.
    pub open spec fn wf(&self) -> bool {
        &&& self.slot().wf()
        &&& self.loaded() ==> self.slot().value() is Some
        &&& self.slot().value() matches Some(t) ==> t.wf() && t@ == standard_gates()
    }

    /// Nothing built, nothing installed.
    pub fn new() -> (r: Self)
        ensures
            r.wf(),
            r.slot().value() is None,
            r.slot().builds() == 0,
            !r.loaded(),
    {
        InterruptTables { table: WriteOnce::new(), loaded: false }
    }

    pub fn is_loaded(&self) -> (r: bool)
        ensures
            r == self.loaded(),
    {
        self.loaded
    }

    /// The entry that handles `vector` once the table is installed.
    pub fn dispatch(&self, vector: u8) -> (r: Option<Gate>)
        requires
            self.wf(),
        ensures
            self.loaded() ==> r == standard_gate(vector as int),
            !self.loaded() ==> r is None,
    {
        if !self.loaded {
            return None;
        }
        match self.table.get() {
            Some(t) => t.entry(vector),
            None => None,
        }
    }
}

/// What one call of `init_idt` does: the table is installed and is the
/// kernel's table; it is built only if it was not built before, and an
/// already built table is kept as it is.
pub open spec fn init_idt_step(before: InterruptTables, after: InterruptTables) -> bool {
    &&& after.wf()
    &&& after.loaded()
    &&& after.slot().value() matches Some(t) && t@ == standard_gates()
    &&& before.slot().value() is Some ==> after.slot().value() == before.slot().value()
        && after.slot().builds() == before.slot().builds()
    &&& before.slot().value() is None ==> after.slot().builds() == before.slot().builds() + 1
}

/// Builds the vector table if it was not built yet and installs it. A
/// second call builds nothing and leaves the installed table as it is.
pub fn init_idt(tables: &mut InterruptTables)
    requires
        old(tables).wf(),
    ensures
        init_idt_step(*old(tables), *final(tables)),
{
    let make = || -> (r: VectorTable)
        ensures
            r.wf(),
            r@ == standard_gates(),
        { build_vector_table() };
    tables.table.get_or_init(make);
    tables.loaded = true;
}

/// The vector ranges of the two chained controllers.
#[derive(Debug, Clone, Copy, PartialEq, Eq, Structural)]
pub struct ControllerLayout {
    pub primary_offset: u8,
    pub secondary_offset: u8,
}

impl ControllerLayout {
    /// Both ranges lie above the CPU's reserved vectors, and the second
    /// starts right where the first ends.
    pub open spec fn wf(&self) -> bool {
        &&& self.primary_offset >= CPU_RESERVED_VECTORS
        &&& self.secondary_offset == self.primary_offset + LINES_PER_CONTROLLER
        &&& self.secondary_offset + LINES_PER_CONTROLLER <= VECTOR_COUNT
    }

    /// Whether one of the two controllers raises `vector`.
    pub open spec fn handles(&self, vector: int) -> bool {
        self.primary_offset <= vector < self.secondary_offset + LINES_PER_CONTROLLER
    }
}

/// The layout the kernel programs into the controllers.
pub fn controller_layout() -> (r: ControllerLayout)
    ensures
        r.primary_offset == PIC_1_OFFSET,
        r.secondary_offset == PIC_2_OFFSET,
        r.wf(),
{
    ControllerLayout { primary_offset: PIC_1_OFFSET, secondary_offset: PIC_2_OFFSET }
}

/// No controller vector collides with a CPU exception, and the timer line
/// is the primary controller's first line.
pub proof fn lemma_controller_vectors_disjoint(layout: ControllerLayout, vector: int)
    requires
        layout.wf(),
        layout.handles(vector),
    ensures
        vector >= CPU_RESERVED_VECTORS,
        vector != BREAKPOINT_VECTOR,
        vector != DOUBLE_FAULT_VECTOR,
        layout.primary_offset == PIC_1_OFFSET ==> layout.handles(
            InterruptIndex::Timer.vector() as int,
        ),
{
}

/// The table of the stack-overflow check image: only the double fault is
/// bound, on its own stack.
pub open spec fn double_fault_check_gates() -> Seq<Option<Gate>> {
    Seq::new(
        VECTOR_COUNT as nat,
        |v: int|
            if v == DOUBLE_FAULT_VECTOR {
                Some(Gate { handler: Handler::DoubleFault, stack_index: Some(DOUBLE_FAULT_IST_INDEX) })
            } else {
                None
            },
    )
}

/// Builds the table that the stack-overflow check image loads: a double
/// fault switches to the reserved stack, every other vector is absent.
pub fn build_double_fault_check_table() -> (r: VectorTable)
    ensures
        r.wf(),
        r@ == double_fault_check_gates(),
{
    let mut idt = VectorTable::new();
    idt.set_handler(DOUBLE_FAULT_VECTOR, Handler::DoubleFault);
    idt.set_stack_index(DOUBLE_FAULT_VECTOR, DOUBLE_FAULT_IST_INDEX);
    assert(idt@ =~= double_fault_check_gates());
    idt
}

/// What a handler asks to be printed.
#[derive(Debug, Clone, Copy, PartialEq, Eq, Structural)]
pub enum Message {
    BreakpointReport,
    DoubleFaultReport,
    TimerTick,
}

/// The text of a message; `frame` is the captured context, as its
/// pretty-printed debug text.
pub open spec fn message_text_spec(m: Message, frame: Seq<char>) -> Seq<char> {
    match m {
        Message::BreakpointReport => "EXCEPTION: BREAKPOINT\n"@ + frame + "\n"@,
        Message::DoubleFaultReport => "EXCEPTION: DOUBLE FAULT\n"@ + frame,
        Message::TimerTick => "."@,
    }
}

/// The text a handler prints for `m`, given the captured context's debug
/// text. A double fault's text is its fail-stop message.
pub fn message_text(m: Message, frame: &str) -> (r: String)
    ensures
        r@ == message_text_spec(m, frame@),
{
    let mut text = String::new();
    match m {
        Message::BreakpointReport => {
            text.append("EXCEPTION: BREAKPOINT\n");
            text.append(frame);
            text.append("\n");
        },
        Message::DoubleFaultReport => {
            text.append("EXCEPTION: DOUBLE FAULT\n");
            text.append(frame);
        },
        Message::TimerTick => {
            text.append(".");
        },
    }
    text
}

/// One thing a handler does, in order.
#[derive(Debug, Clone, Copy, PartialEq, Eq, Structural)]
pub enum Step {
    Print(Message),
    Acknowledge(u8),
    Resume,
    FailStop,
}

/// What each handler does: a breakpoint is reported and execution resumes;
/// a double fault is reported and stops; a timer tick prints its mark and
/// acknowledges its line before returning.
pub open spec fn handler_steps_spec(h: Handler) -> Seq<Step> {
    match h {
        Handler::Breakpoint => seq![Step::Print(Message::BreakpointReport), Step::Resume],
        Handler::DoubleFault => seq![Step::Print(Message::DoubleFaultReport), Step::FailStop],
        Handler::Timer => seq![
            Step::Print(Message::TimerTick),
            Step::Acknowledge(InterruptIndex::Timer.vector()),
            Step::Resume,
        ],
    }
}

/// The steps the handler runs.
pub fn handler_steps(h: Handler) -> (r: Vec<Step>)
    ensures
        r@ == handler_steps_spec(h),
{
    match h {
        Handler::Breakpoint => vec![Step::Print(Message::BreakpointReport), Step::Resume],
        Handler::DoubleFault => vec![Step::Print(Message::DoubleFaultReport), Step::FailStop],
        Handler::Timer => vec![
            Step::Print(Message::TimerTick),
            Step::Acknowledge(InterruptIndex::Timer.as_u8()),
            Step::Resume,
        ],
    }
}

/// The steps of a run of handler invocations, one after the other.
pub open spec fn run_handlers(hs: Seq<Handler>) -> Seq<Step>
    decreases hs.len(),
{
    if hs.len() == 0 {
        seq![]
    } else {
        run_handlers(hs.drop_last()) + handler_steps_spec(hs.last())
    }
}

/// How many acknowledgements a run of steps sends.
pub open spec fn ack_count(steps: Seq<Step>) -> nat
    decreases steps.len(),
{
    if steps.len() == 0 {
        0
    } else {
        ack_count(steps.drop_last()) + if steps.last() is Acknowledge {
            1nat
        } else {
            0nat
        }
    }
}

/// How many timer interrupts a run of invocations holds.
pub open spec fn timer_count(hs: Seq<Handler>) -> nat
    decreases hs.len(),
{
    if hs.len() == 0 {
        0
    } else {
        timer_count(hs.drop_last()) + if hs.last() == Handler::Timer {
            1nat
        } else {
            0nat
        }
    }
}

proof fn lemma_ack_count_concat(a: Seq<Step>, b: Seq<Step>)
    ensures
        ack_count(a + b) == ack_count(a) + ack_count(b),
    decreases b.len(),
{
    if b.len() == 0 {
        assert(a + b =~= a);
    } else {
        lemma_ack_count_concat(a, b.drop_last());
        assert((a + b).drop_last() =~= a + b.drop_last());
    }
}

/// Every timer interrupt acknowledges exactly once: over any run of handler
/// invocations, the acknowledgements sent equal the timer interrupts taken,
/// and each acknowledgement names the timer's vector.
pub proof fn lemma_one_ack_per_timer(hs: Seq<Handler>)
    ensures
        ack_count(run_handlers(hs)) == timer_count(hs),
        forall|i: int|
            0 <= i < run_handlers(hs).len() && run_handlers(hs)[i] is Acknowledge
                ==> run_handlers(hs)[i] == Step::Acknowledge(InterruptIndex::Timer.vector()),
    decreases hs.len(),
{
    if hs.len() > 0 {
        let prefix = hs.drop_last();
        lemma_one_ack_per_timer(prefix);
        let last = handler_steps_spec(hs.last());
        lemma_ack_count_concat(run_handlers(prefix), last);
        assert(ack_count(last) == if hs.last() == Handler::Timer {
            1nat
        } else {
            0nat
        }) by {
            reveal_with_fuel(ack_count, 4);
        }
        assert forall|i: int|
            0 <= i < run_handlers(hs).len() && run_handlers(hs)[i] is Acknowledge implies
                run_handlers(hs)[i] == Step::Acknowledge(InterruptIndex::Timer.vector()) by {
            if i >= run_handlers(prefix).len() {
                assert(run_handlers(hs)[i] == last[i - run_handlers(prefix).len()]);
            }
        }
    }
}

/// A breakpoint does not stop the kernel: its handler reports, then resumes
/// at the interrupted instruction's successor, and never fail-stops.
pub proof fn lemma_breakpoint_resumes()
    ensures
        handler_steps_spec(Handler::Breakpoint).last() == Step::Resume,
        forall|i: int|
            0 <= i < handler_steps_spec(Handler::Breakpoint).len() ==> handler_steps_spec(
                Handler::Breakpoint,
            )[i] != Step::FailStop,
        standard_gate(BREAKPOINT_VECTOR as int) matches Some(g) && g.handler
            == Handler::Breakpoint,
{
}

/// The vector table is built once: from a fresh start, initialising twice
/// builds a single table, and the second call keeps the first one's table.
pub proof fn lemma_vector_table_built_once(
    start: InterruptTables,
    once: InterruptTables,
    twice: InterruptTables,
)
    requires
        start.wf(),
        start.slot().builds() == 0,
        init_idt_step(start, once),
        init_idt_step(once, twice),
    ensures
        twice.slot().value() == once.slot().value(),
        once.slot().builds() == 1,
        twice.slot().builds() == 1,
{
}

/// In the stack-overflow check image as in the kernel, a double fault
/// switches to the slot that holds the top of the reserved region.
pub proof fn lemma_check_table_uses_reserved_stack(stack_start: u64, tss: TaskStateSegment)
    requires
        task_state_for(tss, stack_start),
    ensures
        double_fault_check_gates()[DOUBLE_FAULT_VECTOR as int] == standard_gate(
            DOUBLE_FAULT_VECTOR as int,
        ),
        double_fault_check_gates()[DOUBLE_FAULT_VECTOR as int] == Some(
            Gate { handler: Handler::DoubleFault, stack_index: Some(DOUBLE_FAULT_IST_INDEX) },
        ),
        interrupt_stacks(tss)[DOUBLE_FAULT_IST_INDEX as int] == double_fault_stack_top(
            stack_start,
        ),
{
}

/// The double fault runs on the reserved stack: its entry switches to the
/// interrupt-stack slot that `build_task_state` fills with the top of the
/// reserved region, which lies above the region's start.
pub proof fn lemma_double_fault_on_reserved_stack(stack_start: u64, tss: TaskStateSegment)
    requires
        task_state_for(tss, stack_start),
    ensures
        standard_gate(DOUBLE_FAULT_VECTOR as int) == Some(
            Gate { handler: Handler::DoubleFault, stack_index: Some(DOUBLE_FAULT_IST_INDEX) },
        ),
        DOUBLE_FAULT_IST_INDEX < IST_SLOTS,
        interrupt_stacks(tss)[DOUBLE_FAULT_IST_INDEX as int] == double_fault_stack_top(
            stack_start,
        ),
        interrupt_stacks(tss)[DOUBLE_FAULT_IST_INDEX as int] > stack_start,
{
}

} // verus!
