//! Protection and exception-isolation core of a small x86_64 kernel: the
//! descriptor and task-state tables, the interrupt vector table, the
//! interrupt-controller layout and the fail-stop / test exit protocol.
use vstd::prelude::*;

pub mod gdt;
pub mod interrupts;
pub mod once;

verus! {

/// One stage of bringing up the kernel's protection and interrupt handling.
#[derive(Debug, Clone, Copy, PartialEq, Eq, Structural)]
pub enum BootStep {
    /// Build and activate the descriptor and task-state tables.
    Descriptors,
    /// Build and install the vector table.
    Vectors,
    /// Remap and unmask the interrupt controllers.
    Controllers,
    /// Let hardware interrupts in.
    EnableInterrupts,
}

/// Boot order: the alternate stack is in place before the vector table that
/// refers to it, and interrupts are unmasked last, once every handler and
/// the controllers are ready.
pub open spec fn boot_sequence_spec() -> Seq<BootStep> {
    seq![BootStep::Descriptors, BootStep::Vectors, BootStep::Controllers, BootStep::EnableInterrupts]
}

/// The boot stages, in the order they must run.
pub fn boot_sequence() -> (r: Vec<BootStep>)
    ensures
        r@ == boot_sequence_spec(),
{
    vec![BootStep::Descriptors, BootStep::Vectors, BootStep::Controllers, BootStep::EnableInterrupts]
}

/// I/O port on which the emulator listens for the exit code.
pub const EXIT_PORT: u16 = 0xf4;

/// Exit code handed to the emulator's exit device.
#[derive(Debug, Clone, Copy, PartialEq, Eq, Structural)]
pub enum QemuExitCode {
    Success,
    Failed,
}

impl QemuExitCode {
    pub open spec fn spec_code(self) -> u32 {
        match self {
            QemuExitCode::Success => 0x10,
            QemuExitCode::Failed => 0x11,
        }
    }

    /// The value written to the exit port.
    pub fn code(self) -> (r: u32)
        ensures
            r == self.spec_code(),
    {
        match self {
            QemuExitCode::Success => 0x10,
            QemuExitCode::Failed => 0x11,
        }
    }
}

/// The character of a decimal digit.
pub open spec fn digit_char(d: nat) -> char {
    if d == 0 {
        '0'
    } else if d == 1 {
        '1'
    } else if d == 2 {
        '2'
    } else if d == 3 {
        '3'
    } else if d == 4 {
        '4'
    } else if d == 5 {
        '5'
    } else if d == 6 {
        '6'
    } else if d == 7 {
        '7'
    } else if d == 8 {
        '8'
    } else {
        '9'
    }
}

/// `n` written in decimal, without leading zeros.
pub open spec fn decimal(n: nat) -> Seq<char>
    decreases n,
{
    if n < 10 {
        seq![digit_char(n)]
    } else {
        decimal(n / 10) + seq![digit_char(n % 10)]
    }
}

/// The one-character text of decimal digit `d`.
fn digit_str(d: usize) -> (r: &'static str)
    requires
        d < 10,
    ensures
        r@ == seq![digit_char(d as nat)],
{
    match d {
        0 => {
            proof {
                reveal_strlit("0");
            }
            "0"
        },
        1 => {
            proof {
                reveal_strlit("1");
            }
            "1"
        },
        2 => {
            proof {
                reveal_strlit("2");
            }
            "2"
        },
        3 => {
            proof {
                reveal_strlit("3");
            }
            "3"
        },
        4 => {
            proof {
                reveal_strlit("4");
            }
            "4"
        },
        5 => {
            proof {
                reveal_strlit("5");
            }
            "5"
        },
        6 => {
            proof {
                reveal_strlit("6");
            }
            "6"
        },
        7 => {
            proof {
                reveal_strlit("7");
            }
            "7"
        },
        8 => {
            proof {
                reveal_strlit("8");
            }
            "8"
        },
        _ => {
            proof {
                reveal_strlit("9");
            }
            "9"
        },
    }
}

/// `n` written in decimal.
fn decimal_string(n: usize) -> (r: String)
    ensures
        r@ == decimal(n as nat),
    decreases n,
{
    if n < 10 {
        let mut text = String::new();
        text.append(digit_str(n));
        text
    } else {
        let mut text = decimal_string(n / 10);
        text.append(digit_str(n % 10));
        text
    }
}

/// A text sink: the serial port, the screen, or a recording of either.
pub trait Console {
    /// Everything written so far. The default lets a sink outside verified
    /// code (the serial port) implement the trait; Verus does not hold such
    /// an impl to `write`'s contract, which over this default it breaks.
    closed spec fn written(&self) -> Seq<char> {
        Seq::empty()
    }

    fn write(&mut self, text: &str)
        ensures
            final(self).written() == old(self).written() + text@,
    ;
}

/// A console that keeps what is written to it.
pub struct Transcript {
    text: String,
}

impl Transcript {
    pub fn new() -> (r: Self)
        ensures
            r.written() == Seq::<char>::empty(),
    {
        Transcript { text: String::new() }
    }

    /// Everything written so far.
    pub fn contents(&self) -> (r: String)
        ensures
            r@ == self.written(),
    {
        self.text.clone()
    }
}

impl Console for Transcript {
    closed spec fn written(&self) -> Seq<char> {
        self.text@
    }

    fn write(&mut self, text: &str) {
        self.text.append(text);
    }
}

/// A test the runner can run.
///
/// Each spec item has a default so that tests written outside verified code
/// can implement the trait. Verus does not hold such an impl to the
/// contracts below: over the defaults they speak of an empty name, of a test
/// that writes nothing, and of a test that checks nothing.
pub trait Testable {
    /// The name the runner prints for the test.
    closed spec fn test_name(&self) -> Seq<char> {
        Seq::empty()
    }

    /// What the test itself writes to the console while it runs.
    closed spec fn output(&self) -> Seq<char> {
        Seq::empty()
    }

    /// What the test checks: it holds whenever a run returns.
    closed spec fn passed(&self) -> bool {
        true
    }

    fn name(&self) -> (r: String)
        ensures
            r@ == self.test_name(),
    ;

    /// Runs the test, writing its own output to `console`; a failing test
    /// does not return.
    fn run<C: Console>(&self, console: &mut C)
        ensures
            self.passed(),
            final(console).written() == old(console).written() + self.output(),
    ;
}

/// The header the runner prints before `n` tests.
pub open spec fn runner_header(n: nat) -> Seq<char> {
    "Running "@ + decimal(n) + " tests\n"@
}

/// What the runner prints for one test that passes: its name, what the test
/// writes while it runs, then the pass marker.
pub open spec fn test_line(name: Seq<char>, output: Seq<char>) -> Seq<char> {
    name + "...\t"@ + output + "[ok]\n"@
}

/// What a run of tests that all pass prints, in order.
pub open spec fn test_lines<T: Testable>(tests: Seq<T>) -> Seq<char>
    decreases tests.len(),
{
    if tests.len() == 0 {
        seq![]
    } else {
        test_lines(tests.drop_last()) + test_line(tests.last().test_name(), tests.last().output())
    }
}

/// Runs the tests in order, one at a time: prints how many there are, then
/// for each test its name, the test's own output while it runs, and the pass
/// marker once it returns. Every test has run and what it checks holds; the
/// success code is then due to the exit device.
pub fn test_runner<T: Testable, C: Console>(tests: &[T], console: &mut C) -> (r: QemuExitCode)
    ensures
        final(console).written() == old(console).written() + runner_header(tests@.len())
            + test_lines(tests@),
        forall|k: int| 0 <= k < tests@.len() ==> #[trigger] tests@[k].passed(),
        r == QemuExitCode::Success,
{
    console.write("Running ");
    let count = decimal_string(tests.len());
    console.write(count.as_str());
    console.write(" tests\n");
    let ghost start = console.written();
    let mut i: usize = 0;
    while i < tests.len()
        invariant
            i <= tests@.len(),
            start == old(console).written() + runner_header(tests@.len()),
            console.written() == start + test_lines(tests@.take(i as int)),
            forall|k: int| 0 <= k < i ==> #[trigger] tests@[k].passed(),
        decreases tests@.len() - i,
    {
        let name = tests[i].name();
        console.write(name.as_str());
        console.write("...\t");
        tests[i].run(console);
        console.write("[ok]\n");
        proof {
            assert(tests@.take(i + 1).drop_last() =~= tests@.take(i as int));
            assert(tests@.take(i + 1).last() == tests@[i as int]);
        }
        i = i + 1;
    }
    proof {
        assert(tests@.take(tests@.len() as int) =~= tests@);
    }
    QemuExitCode::Success
}

/// Reports a failed test: the failure marker, then the panic message. The
/// failure code is then due to the exit device.
pub fn test_panic_handler<C: Console>(console: &mut C, message: &str) -> (r: QemuExitCode)
    ensures
        final(console).written() == old(console).written() + "[failed]\n\n"@ + "Error: "@
            + message@ + "\n\n"@,
        r == QemuExitCode::Failed,
{
    console.write("[failed]\n\n");
    console.write("Error: ");
    console.write(message);
    console.write("\n\n");
    QemuExitCode::Failed
}

/// Reports that the stack-overflow check reached its double-fault handler:
/// the pass marker after the check's name. The success code is then due to
/// the exit device.
pub fn double_fault_check_passed<C: Console>(console: &mut C) -> (r: QemuExitCode)
    ensures
        final(console).written() == old(console).written() + "[ok]\n\n"@,
        r == QemuExitCode::Success,
{
    console.write("[ok]\n\n");
    QemuExitCode::Success
}

/// Where a panic happened: source file and line.
pub struct PanicLocation {
    pub file: String,
    pub line: u32,
}

/// The diagnostic line for a panic outside test mode.
pub open spec fn panic_report_text(location: Option<PanicLocation>, message: Seq<char>) -> Seq<
    char,
> {
    match location {
        Some(l) => "Panicked at "@ + l.file@ + ":"@ + decimal(l.line as nat) + " "@ + message
            + "\n"@,
        None => message + "\n"@,
    }
}

/// Writes the diagnostic for a panic outside test mode: the place it
/// happened, when known, then the message. The kernel then halts.
pub fn report_panic<C: Console>(console: &mut C, location: &Option<PanicLocation>, message: &str)
    ensures
        final(console).written() == old(console).written() + panic_report_text(
            *location,
            message@,
        ),
{
    match location {
        Some(l) => {
            console.write("Panicked at ");
            console.write(l.file.as_str());
            console.write(":");
            let line = decimal_string(l.line as usize);
            console.write(line.as_str());
            console.write(" ");
        },
        None => {},
    }
    console.write(message);
    console.write("\n");
}

} // verus!
