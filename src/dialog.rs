//! Desktop dialogs on Linux, through kdialog or, where it cannot be started,
//! zenity.
//!
//! The functions here decide which command to run next from the outcomes of
//! the commands already tried; the caller runs them.

use vstd::prelude::*;

verus! {

/// A program and its arguments.
#[derive(Debug, PartialEq)]
pub struct DialogCommand {
    pub program: String,
    pub args: Vec<String>,
}

/// How running one dialog command went.
#[derive(Debug, Clone, Copy, PartialEq, Eq, Structural)]
pub enum Launch {
    /// The program could not be started.
    NotStarted,
    /// The program ran and exited, successfully or not.
    Exited(bool),
}

/// What to do next.
#[derive(Debug, PartialEq)]
pub enum DialogStep {
    /// Run this command and report how it went.
    Run(DialogCommand),
    /// The dialog is over: `Ok` where the user agreed (or for a plain
    /// message, always).
    Done(Result<(), ()>),
}

impl DialogCommand {
    pub open spec fn is(self, program: Seq<char>, args: Seq<Seq<char>>) -> bool {
        &&& self.program@ == program
        &&& self.args@.map_values(|a: String| a@) == args
    }
}

pub open spec fn kdialog_error(title: Seq<char>, message: Seq<char>) -> Seq<Seq<char>> {
    seq!["--title"@, title, "--error"@, message]
}

pub open spec fn zenity_error(title: Seq<char>, message: Seq<char>) -> Seq<Seq<char>> {
    seq!["--title"@, title, "--error"@, "--text"@, message]
}

pub open spec fn kdialog_question(title: Seq<char>, message: Seq<char>) -> Seq<Seq<char>> {
    seq!["--title"@, title, "--yesno"@, message]
}

pub open spec fn zenity_question(title: Seq<char>, message: Seq<char>) -> Seq<Seq<char>> {
    seq!["--title"@, title, "--question"@, "--text"@, message]
}

fn text(s: &str) -> (r: String)
    ensures
        r@ == s@,
{
    s.to_string()
}

/// Shows an error message: kdialog first, zenity where kdialog could not be
/// started.
pub fn show_error(title: &String, message: &String, tried: &Vec<Launch>) -> (r: DialogStep)
    ensures
        tried@.len() == 0 ==> (r matches DialogStep::Run(c) && c.is(
            "kdialog"@,
            kdialog_error(title@, message@),
        )),
        tried@.len() == 1 && tried@[0] is NotStarted ==> (r matches DialogStep::Run(c) && c.is(
            "zenity"@,
            zenity_error(title@, message@),
        )),
        tried@.len() == 1 && tried@[0] is Exited ==> r == DialogStep::Done(Ok(())),
        tried@.len() > 1 ==> r == DialogStep::Done(Ok(())),
{
    if tried.len() == 0 {
        let mut args: Vec<String> = Vec::new();
        args.push(text("--title"));
        args.push(title.clone());
        args.push(text("--error"));
        args.push(message.clone());
        proof {
            assert(args@.map_values(|a: String| a@) =~= kdialog_error(title@, message@));
        }
        let c = DialogCommand { program: text("kdialog"), args };
        DialogStep::Run(c)
    } else if tried.len() == 1 && tried[0] == Launch::NotStarted {
        let mut args: Vec<String> = Vec::new();
        args.push(text("--title"));
        args.push(title.clone());
        args.push(text("--error"));
        args.push(text("--text"));
        args.push(message.clone());
        proof {
            assert(args@.map_values(|a: String| a@) =~= zenity_error(title@, message@));
        }
        let c = DialogCommand { program: text("zenity"), args };
        DialogStep::Run(c)
    } else {
        DialogStep::Done(Ok(()))
    }
}

/// The answer that an exit status gives: yes on success.
pub open spec fn answer(success: bool) -> Result<(), ()> {
    if success {
        Ok(())
    } else {
        Err(())
    }
}

/// Asks a yes/no question: kdialog first, zenity where kdialog could not be
/// started; the first dialog that ran gives the answer, and none is a no.
pub fn show_option(title: &String, message: &String, tried: &Vec<Launch>) -> (r: DialogStep)
    ensures
        tried@.len() == 0 ==> (r matches DialogStep::Run(c) && c.is(
            "kdialog"@,
            kdialog_question(title@, message@),
        )),
        tried@.len() >= 1 ==> (tried@[0] matches Launch::Exited(ok) ==> r == DialogStep::Done(
            answer(ok),
        )),
        tried@.len() == 1 && tried@[0] is NotStarted ==> (r matches DialogStep::Run(c) && c.is(
            "zenity"@,
            zenity_question(title@, message@),
        )),
        tried@.len() >= 2 && tried@[0] is NotStarted ==> r == DialogStep::Done(
            match tried@[1] {
                Launch::Exited(ok) => answer(ok),
                Launch::NotStarted => Err(()),
            },
        ),
{
    if tried.len() == 0 {
        let mut args: Vec<String> = Vec::new();
        args.push(text("--title"));
        args.push(title.clone());
        args.push(text("--yesno"));
        args.push(message.clone());
        proof {
            assert(args@.map_values(|a: String| a@) =~= kdialog_question(title@, message@));
        }
        let c = DialogCommand { program: text("kdialog"), args };
        return DialogStep::Run(c);
    }
    if let Launch::Exited(ok) = tried[0] {
        return DialogStep::Done(if ok { Ok(()) } else { Err(()) });
    }
    if tried.len() == 1 {
        let mut args: Vec<String> = Vec::new();
        args.push(text("--title"));
        args.push(title.clone());
        args.push(text("--question"));
        args.push(text("--text"));
        args.push(message.clone());
        proof {
            assert(args@.map_values(|a: String| a@) =~= zenity_question(title@, message@));
        }
        let c = DialogCommand { program: text("zenity"), args };
        return DialogStep::Run(c);
    }
    match tried[1] {
        Launch::Exited(ok) => DialogStep::Done(if ok { Ok(()) } else { Err(()) }),
        Launch::NotStarted => DialogStep::Done(Err(())),
    }
}

} // verus!
