//! External commands as plain values: what to run, and what came back.

use vstd::prelude::*;
use vstd::string::StringExecFns;
use crate::text::{lemma_texts_push, texts};

verus! {

/// An external command to run: the program and its arguments, in order.
#[derive(Debug, Clone)]
pub struct CommandSpec {
    pub program: String,
    pub args: Vec<String>,
}

/// What a finished external command left behind.
#[derive(Debug, Clone)]
pub struct CommandOutput {
    /// Whether the command exited with status zero.
    pub success: bool,
    /// The exit code, where the command exited by itself.
    pub code: Option<i32>,
    /// What the command wrote to standard output.
    pub stdout: String,
    /// What the command wrote to standard error.
    pub stderr: String,
}

impl CommandSpec {
    /// The command line: the program, then the arguments.
    pub open spec fn argv(self) -> Seq<Seq<char>> {
        seq![self.program@] + texts(self.args@)
    }

    /// The command that runs `program` with `args`.
    pub fn new(program: &str, args: &[&str]) -> (spec: CommandSpec)
        ensures
            spec.argv() == seq![program@] + texts(args@),
    {
        let mut owned: Vec<String> = Vec::new();
        let mut i: usize = 0;
        while i < args.len()
            invariant
                i <= args.len(),
                texts(owned@) == texts(args@).take(i as int),
            decreases args.len() - i,
        {
            let ghost before = owned@;
            let arg = String::from_str(args[i]);
            owned.push(arg);
            proof {
                lemma_texts_push(before, arg);
                assert(texts(args@).take(i + 1) =~= texts(args@).take(i as int).push(args@[i as int]@));
            }
            i += 1;
        }
        proof {
            assert(texts(args@).take(args.len() as int) == texts(args@));
        }
        CommandSpec { program: String::from_str(program), args: owned }
    }

    /// The command that runs this one with elevated privileges: `sudo`, then
    /// the program, then its arguments.
    pub fn elevated(&self) -> (spec: CommandSpec)
        ensures
            spec.argv() == seq!["sudo"@] + self.argv(),
    {
        let mut args: Vec<String> = Vec::new();
        args.push(self.program.clone());
        let mut i: usize = 0;
        while i < self.args.len()
            invariant
                i <= self.args.len(),
                texts(args@) == seq![self.program@] + texts(self.args@).take(i as int),
            decreases self.args.len() - i,
        {
            let ghost before = args@;
            let arg = self.args[i].clone();
            args.push(arg);
            proof {
                lemma_texts_push(before, arg);
                assert(texts(self.args@).take(i + 1) =~= texts(self.args@).take(i as int).push(
                    self.args@[i as int]@,
                ));
                assert(texts(args@) =~= seq![self.program@] + texts(self.args@).take(i + 1));
            }
            i += 1;
        }
        proof {
            assert(texts(self.args@).take(self.args.len() as int) == texts(self.args@));
        }
        CommandSpec { program: String::from_str("sudo"), args }
    }
}

} // verus!
