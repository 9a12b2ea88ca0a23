use vstd::prelude::*;

verus! {

/// The operating-system family the launcher runs on. It decides the
/// permission fix-up before a launch and the shape of the daemon's graceful
/// termination request.
#[derive(Clone, Copy, Debug, PartialEq, Eq, Structural)]
pub enum Platform {
    Posix,
    Windows,
}

impl Platform {
    /// Whether a game executable must be made executable before it is spawned.
    pub fn needs_permission_fix(self) -> (r: bool)
        ensures
            r == (self == Platform::Posix),
    {
        match self {
            Platform::Posix => true,
            Platform::Windows => false,
        }
    }
}

/// An external command: a program and its arguments.
#[derive(Clone, Debug)]
pub struct CommandLine {
    pub program: String,
    pub args: Vec<String>,
}

/// The mathematical value of a `CommandLine`.
pub struct CommandSpec {
    pub program: Seq<char>,
    pub args: Seq<Seq<char>>,
}

impl View for CommandLine {
    type V = CommandSpec;

    open spec fn view(&self) -> CommandSpec {
        CommandSpec { program: self.program@, args: self.args@.map_values(|a: String| a@) }
    }
}

/// The character of a decimal digit.
pub open spec fn digit_char(d: nat) -> char {
    if d == 0 {
        '0'
    } else if d == 1 {
        '1'
    } else if d == 2 {
        '2'
    } else if d == 3 {
        '3'
    } else if d == 4 {
        '4'
    } else if d == 5 {
        '5'
    } else if d == 6 {
        '6'
    } else if d == 7 {
        '7'
    } else if d == 8 {
        '8'
    } else {
        '9'
    }
}

/// The decimal representation of a natural number, without leading zeros.
pub open spec fn decimal(n: nat) -> Seq<char>
    decreases n,
{
    if n < 10 {
        seq![digit_char(n)]
    } else {
        decimal(n / 10).push(digit_char(n % 10))
    }
}

fn digit_str(d: u32) -> (r: &'static str)
    requires
        d < 10,
    ensures
        r@ == seq![digit_char(d as nat)],
{
    proof {
        reveal_strlit("0");
        reveal_strlit("1");
        reveal_strlit("2");
        reveal_strlit("3");
        reveal_strlit("4");
        reveal_strlit("5");
        reveal_strlit("6");
        reveal_strlit("7");
        reveal_strlit("8");
        reveal_strlit("9");
    }
    let r = match d {
        0 => "0",
        1 => "1",
        2 => "2",
        3 => "3",
        4 => "4",
        5 => "5",
        6 => "6",
        7 => "7",
        8 => "8",
        _ => "9",
    };
    assert(r@ =~= seq![digit_char(d as nat)]);
    r
}

/// The decimal text of a process identifier, as external commands expect it.
pub fn pid_text(pid: u32) -> (r: String)
    ensures
        r@ == decimal(pid as nat),
    decreases pid,
{
    if pid < 10 {
        String::from_str(digit_str(pid))
    } else {
        let mut s = pid_text(pid / 10);
        s.append(digit_str(pid % 10));
        s
    }
}

/// The command that marks the file at `path` executable.
pub open spec fn chmod_spec(path: Seq<char>) -> CommandSpec {
    CommandSpec { program: "chmod"@, args: seq!["+x"@, path] }
}

/// The command that asks the daemon with identifier `pid` to terminate:
/// a `SIGTERM` on POSIX, a tree kill on Windows.
pub open spec fn termination_spec(platform: Platform, pid: u32) -> CommandSpec {
    match platform {
        Platform::Posix => CommandSpec {
            program: "kill"@,
            args: seq!["-TERM"@, decimal(pid as nat)],
        },
        Platform::Windows => CommandSpec {
            program: "taskkill"@,
            args: seq!["/PID"@, decimal(pid as nat), "/T"@],
        },
    }
}

/// Builds the permission fix-up command for the executable at `path`.
pub fn permission_fix_command(path: &String) -> (r: CommandLine)
    ensures
        r@ == chmod_spec(path@),
{
    let mut args: Vec<String> = Vec::new();
    args.push(String::from_str("+x"));
    args.push(path.clone());
    let r = CommandLine { program: String::from_str("chmod"), args };
    assert(r@.args =~= chmod_spec(path@).args);
    r
}

/// Builds the graceful termination request for the daemon with identifier `pid`.
pub fn graceful_termination_command(platform: Platform, pid: u32) -> (r: CommandLine)
    ensures
        r@ == termination_spec(platform, pid),
{
    let mut args: Vec<String> = Vec::new();
    match platform {
        Platform::Posix => {
            args.push(String::from_str("-TERM"));
            args.push(pid_text(pid));
            let r = CommandLine { program: String::from_str("kill"), args };
            assert(r@.args =~= termination_spec(platform, pid).args);
            r
        },
        Platform::Windows => {
            args.push(String::from_str("/PID"));
            args.push(pid_text(pid));
            args.push(String::from_str("/T"));
            let r = CommandLine { program: String::from_str("taskkill"), args };
            assert(r@.args =~= termination_spec(platform, pid).args);
            r
        },
    }
}

} // verus!
