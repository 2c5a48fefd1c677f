use vstd::prelude::*;
use vstd::string::*;

verus! {

/// The decimal digit `d` as a character.
pub open spec fn digit_char(d: nat) -> char {
    seq!['0', '1', '2', '3', '4', '5', '6', '7', '8', '9'][d as int]
}

/// The decimal notation of `n`: most significant digit first, no leading zeros,
/// and "0" for zero.
pub open spec fn decimal_spec(n: nat) -> Seq<char>
    decreases n,
{
    if n < 10 {
        seq![digit_char(n)]
    } else {
        decimal_spec(n / 10).push(digit_char(n % 10))
    }
}

/// The program that runs the debugger with elevated privilege.
pub open spec fn launcher_spec() -> Seq<char> {
    "sudo"@
}

/// The debugger command that dumps the backtraces of every thread.
pub open spec fn backtrace_command_spec() -> Seq<char> {
    "thread apply all bt"@
}

/// The arguments handed to the launcher: the debugger, attached to `pid`, told
/// to run the backtrace command.
pub open spec fn debugger_args_spec(pid: nat) -> Seq<Seq<char>> {
    seq!["gdb"@, "-p"@, decimal_spec(pid), "-ex"@, backtrace_command_spec()]
}

/// The line written to standard error when backtrace collection starts.
pub open spec fn diagnostic_line_spec() -> Seq<char> {
    "SIGTERM received; collecting backtraces from running threads with gdb..."@
}

/// A subprocess to start: a program and its arguments, in order.
pub struct DebuggerCommand {
    pub program: String,
    pub args: Vec<String>,
}

impl DebuggerCommand {
    pub open spec fn args_view(&self) -> Seq<Seq<char>> {
        self.args@.map_values(|a: String| a@)
    }
}

fn digit_str(d: u32) -> (r: &'static str)
    requires
        d < 10,
    ensures
        r@ == seq![digit_char(d as nat)],
{
    proof {
        reveal_strlit("0");
        reveal_strlit("1");
        reveal_strlit("2");
        reveal_strlit("3");
        reveal_strlit("4");
        reveal_strlit("5");
        reveal_strlit("6");
        reveal_strlit("7");
        reveal_strlit("8");
        reveal_strlit("9");
    }
    match d {
        0 => "0",
        1 => "1",
        2 => "2",
        3 => "3",
        4 => "4",
        5 => "5",
        6 => "6",
        7 => "7",
        8 => "8",
        _ => "9",
    }
}

/// Writes `n` in decimal.
pub fn decimal(n: u32) -> (r: String)
    ensures
        r@ == decimal_spec(n as nat),
    decreases n,
{
    if n < 10 {
        String::from_str(digit_str(n))
    } else {
        let mut s = decimal(n / 10);
        s.append(digit_str(n % 10));
        s
    }
}

/// The command that attaches the debugger to the process `pid` and has it
/// print the backtrace of every thread, then exit.
pub fn debugger_command(pid: u32) -> (c: DebuggerCommand)
    ensures
        c.program@ == launcher_spec(),
        c.args_view() == debugger_args_spec(pid as nat),
{
    let mut args: Vec<String> = Vec::new();
    args.push(String::from_str("gdb"));
    args.push(String::from_str("-p"));
    args.push(decimal(pid));
    args.push(String::from_str("-ex"));
    args.push(String::from_str("thread apply all bt"));
    let c = DebuggerCommand { program: String::from_str("sudo"), args };
    assert(c.args_view() =~= debugger_args_spec(pid as nat));
    c
}

/// The line that announces backtrace collection on standard error.
pub fn diagnostic_line() -> (r: String)
    ensures
        r@ == diagnostic_line_spec(),
{
    String::from_str("SIGTERM received; collecting backtraces from running threads with gdb...")
}

} // verus!
