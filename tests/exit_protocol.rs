use blog_os::{
    boot_sequence, report_panic, test_panic_handler, BootStep, test_runner, Console, PanicLocation, QemuExitCode,
    Testable, Transcript, EXIT_PORT,
};
use std::cell::Cell;

struct Check<'a> {
    name: &'static str,
    ran: &'a Cell<u32>,
}

impl<'a> Testable for Check<'a> {
    fn name(&self) -> String {
        self.name.to_string()
    }

    fn run<C: Console>(&self, _console: &mut C) {
        self.ran.set(self.ran.get() + 1);
        assert!(1 == 1);
    }
}

struct Noisy<'a> {
    name: &'static str,
    log: &'a std::cell::RefCell<Vec<&'static str>>,
}

impl<'a> Testable for Noisy<'a> {
    fn name(&self) -> String {
        self.name.to_string()
    }

    fn run<C: Console>(&self, console: &mut C) {
        self.log.borrow_mut().push(self.name);
        console.write("<");
        console.write(self.name);
        console.write(">");
    }
}

#[test]
fn exit_codes_and_port() {
    assert_eq!(QemuExitCode::Success.code(), 0x10);
    assert_eq!(QemuExitCode::Failed.code(), 0x11);
    assert_eq!(EXIT_PORT, 0xf4);
}

#[test]
fn runner_reports_two_passing_tests() {
    let ran = Cell::new(0);
    let tests = [Check { name: "t1", ran: &ran }, Check { name: "t2", ran: &ran }];
    let mut out = Transcript::new();
    let code = test_runner(&tests, &mut out);
    assert_eq!(out.contents(), "Running 2 tests\nt1...\t[ok]\nt2...\t[ok]\n");
    assert_eq!(code, QemuExitCode::Success);
    assert_eq!(code.code(), 0x10);
    assert_eq!(ran.get(), 2);
}

#[test]
fn runner_with_no_tests() {
    let tests: [Check; 0] = [];
    let mut out = Transcript::new();
    let code = test_runner(&tests, &mut out);
    assert_eq!(out.contents(), "Running 0 tests\n");
    assert_eq!(code, QemuExitCode::Success);
}

#[test]
fn runner_counts_past_nine() {
    let ran = Cell::new(0);
    let tests: Vec<Check> = (0..12).map(|_| Check { name: "c", ran: &ran }).collect();
    let mut out = Transcript::new();
    test_runner(&tests, &mut out);
    let text = out.contents();
    assert!(text.starts_with("Running 12 tests\n"));
    assert_eq!(text.matches("c...\t[ok]\n").count(), 12);
    assert_eq!(ran.get(), 12);
}

#[test]
fn runner_appends_to_earlier_output() {
    let ran = Cell::new(0);
    let tests = [Check { name: "only", ran: &ran }];
    let mut out = Transcript::new();
    out.write("boot\n");
    test_runner(&tests, &mut out);
    assert_eq!(out.contents(), "boot\nRunning 1 tests\nonly...\t[ok]\n");
}

#[test]
fn failed_test_report() {
    let mut out = Transcript::new();
    out.write("t3...\t");
    let code = test_panic_handler(&mut out, "assertion failed");
    assert_eq!(out.contents(), "t3...\t[failed]\n\nError: assertion failed\n\n");
    assert_eq!(code, QemuExitCode::Failed);
    assert_eq!(code.code(), 0x11);
}

#[test]
fn panic_report_with_location() {
    let mut out = Transcript::new();
    let loc = Some(PanicLocation { file: "src/main.rs".to_string(), line: 42 });
    report_panic(&mut out, &loc, "boom");
    assert_eq!(out.contents(), "Panicked at src/main.rs:42 boom\n");
}

#[test]
fn panic_report_without_location() {
    let mut out = Transcript::new();
    report_panic(&mut out, &None, "boom");
    assert_eq!(out.contents(), "boom\n");
}

#[test]
fn boot_unmasks_interrupts_last() {
    assert_eq!(
        boot_sequence(),
        vec![
            BootStep::Descriptors,
            BootStep::Vectors,
            BootStep::Controllers,
            BootStep::EnableInterrupts
        ]
    );
}

#[test]
fn runner_runs_each_test_once_in_order() {
    let log = std::cell::RefCell::new(Vec::new());
    let tests = [
        Noisy { name: "a", log: &log },
        Noisy { name: "b", log: &log },
        Noisy { name: "c", log: &log },
    ];
    let mut out = Transcript::new();
    let code = test_runner(&tests, &mut out);
    assert_eq!(*log.borrow(), vec!["a", "b", "c"]);
    assert_eq!(
        out.contents(),
        "Running 3 tests\na...\t<a>[ok]\nb...\t<b>[ok]\nc...\t<c>[ok]\n"
    );
    assert_eq!(code, QemuExitCode::Success);
}

#[test]
fn stack_overflow_check_report() {
    let mut out = Transcript::new();
    out.write("stack_overflow::stack_overflow...\t");
    let code = blog_os::double_fault_check_passed(&mut out);
    assert_eq!(out.contents(), "stack_overflow::stack_overflow...\t[ok]\n\n");
    assert_eq!(code.code(), 0x10);
}
