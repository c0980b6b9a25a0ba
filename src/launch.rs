use vstd::prelude::*;

verus! {

/// What to start: a program and its arguments, with no shell in between.
pub struct LaunchPlan {
    pub program: String,
    pub args: Vec<String>,
}

/// The arguments of a plan, as character sequences.
pub open spec fn args_view(args: Seq<String>) -> Seq<Seq<char>> {
    args.map_values(|a: String| a@)
}

/// The view of an optional string.
pub open spec fn opt_view(o: Option<String>) -> Option<Seq<char>> {
    match o {
        Some(s) => Some(s@),
        None => None,
    }
}

/// The arguments for a command, given its optional argument string: none, the
/// string itself, or, where shell semantics are asked for, `-c` and the string.
pub open spec fn command_args(is_shell: bool, args: Option<Seq<char>>) -> Seq<Seq<char>> {
    match args {
        None => Seq::empty(),
        Some(a) => if is_shell {
            seq!["-c"@, a]
        } else {
            seq![a]
        },
    }
}

/// A submitted command: an executable name, and whether its argument string is
/// to be run through that executable as a shell (`-c`).
pub struct Cmd {
    pub cmd: String,
    pub is_shell: bool,
}

impl Cmd {
    pub fn new(cmd: String, is_shell: bool) -> (r: Self)
        ensures
            r.cmd@ == cmd@,
            r.is_shell == is_shell,
    {
        Self { cmd, is_shell }
    }

    /// How to start this command with the optional argument string `args`.
    pub fn launch_plan(&self, args: Option<String>) -> (r: LaunchPlan)
        ensures
            r.program@ == self.cmd@,
            args_view(r.args@) == command_args(self.is_shell, opt_view(args)),
    {
        let ghost av = opt_view(args);
        let mut list: Vec<String> = Vec::new();
        match args {
            Some(a) => {
                if self.is_shell {
                    list.push(String::from_str("-c"));
                }
                list.push(a);
            },
            None => {},
        }
        assert(args_view(list@) =~= command_args(self.is_shell, av));
        LaunchPlan { program: self.cmd.clone(), args: list }
    }
}

/// The shell interpreters a script may be run through.
#[derive(PartialEq, Eq, Structural, Clone, Copy, Debug)]
pub enum Interpreter {
    Bash,
    Sh,
}

/// Why a submission was refused before anything was started.
#[derive(PartialEq, Eq, Structural, Clone, Copy, Debug)]
pub enum LaunchError {
    /// The interpreter name is not on the allow-list.
    UnknownInterpreter,
}

impl LaunchError {
    /// A message for the submitter.
    pub fn describe(&self) -> (r: String)
        ensures
            r@ == "unsupported interpreter"@,
    {
        String::from_str("unsupported interpreter")
    }
}

/// Whether `c` is an upper-case ASCII letter.
pub open spec fn is_ascii_upper(c: char) -> bool {
    'A' <= c && c <= 'Z'
}

/// Whether two characters are equal once ASCII letters are taken in lower case.
pub open spec fn chars_match_ignoring_case(a: char, b: char) -> bool {
    a == b || (is_ascii_upper(a) && a as u32 + 32 == b as u32) || (is_ascii_upper(b) && b as u32
        + 32 == a as u32)
}

/// Whether two strings are equal once ASCII letters are taken in lower case.
pub open spec fn matches_ignoring_case(a: Seq<char>, b: Seq<char>) -> bool {
    a.len() == b.len() && forall|i: int|
        0 <= i < a.len() ==> #[trigger] chars_match_ignoring_case(a[i], b[i])
}

/// Compares two strings, taking ASCII letters in lower case.
pub fn eq_ignoring_case(a: &str, b: &str) -> (r: bool)
    ensures
        r == matches_ignoring_case(a@, b@),
{
    let n = a.unicode_len();
    if n != b.unicode_len() {
        return false;
    }
    let mut i: usize = 0;
    while i < n
        invariant
            n == a@.len(),
            n == b@.len(),
            0 <= i <= n,
            forall|j: int| 0 <= j < i ==> #[trigger] chars_match_ignoring_case(a@[j], b@[j]),
        decreases n - i,
    {
        let x = a.get_char(i);
        let y = b.get_char(i);
        let xu = x as u32;
        let yu = y as u32;
        let same = xu == yu || ('A' <= x && x <= 'Z' && xu + 32 == yu) || ('A' <= y && y <= 'Z'
            && yu + 32 == xu);
        if !same {
            assert(!chars_match_ignoring_case(a@[i as int], b@[i as int]));
            return false;
        }
        i = i + 1;
    }
    true
}

/// The interpreter that `name` names, letters in either case.
pub open spec fn interpreter_named(name: Seq<char>) -> Option<Interpreter> {
    if matches_ignoring_case(name, "bash"@) {
        Some(Interpreter::Bash)
    } else if matches_ignoring_case(name, "sh"@) {
        Some(Interpreter::Sh)
    } else {
        None
    }
}

/// The program name of an interpreter.
pub open spec fn interpreter_program(i: Interpreter) -> Seq<char> {
    match i {
        Interpreter::Bash => "bash"@,
        Interpreter::Sh => "sh"@,
    }
}

impl Interpreter {
    /// Looks `name` up in the allow-list, letters in either case.
    pub fn from_name(name: &str) -> (r: Result<Interpreter, LaunchError>)
        ensures
            match interpreter_named(name@) {
                Some(i) => r == Ok::<Interpreter, LaunchError>(i),
                None => r == Err::<Interpreter, LaunchError>(LaunchError::UnknownInterpreter),
            },
    {
        if eq_ignoring_case(name, "bash") {
            Ok(Interpreter::Bash)
        } else if eq_ignoring_case(name, "sh") {
            Ok(Interpreter::Sh)
        } else {
            Err(LaunchError::UnknownInterpreter)
        }
    }

    /// The program to start for this interpreter.
    pub fn program(&self) -> (r: String)
        ensures
            r@ == interpreter_program(*self),
    {
        match self {
            Interpreter::Bash => String::from_str("bash"),
            Interpreter::Sh => String::from_str("sh"),
        }
    }
}

/// How to run `script` through the interpreter named `interpreter`; refused,
/// before anything is started, where the name is not on the allow-list.
pub fn plan_script(interpreter: &str, script: String) -> (r: Result<LaunchPlan, LaunchError>)
    ensures
        match interpreter_named(interpreter@) {
            Some(i) => match r {
                Ok(p) => p.program@ == interpreter_program(i) && args_view(p.args@) == seq![
                    "-c"@,
                    script@,
                ],
                Err(_) => false,
            },
            None => r == Err::<LaunchPlan, LaunchError>(LaunchError::UnknownInterpreter),
        },
{
    match Interpreter::from_name(interpreter) {
        Ok(i) => {
            let ghost sv = script@;
            let mut args: Vec<String> = Vec::new();
            args.push(String::from_str("-c"));
            args.push(script);
            assert(args_view(args@) =~= seq!["-c"@, sv]);
            Ok(LaunchPlan { program: i.program(), args })
        },
        Err(e) => Err(e),
    }
}

} // verus!
