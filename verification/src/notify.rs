use vstd::prelude::*;

verus! {

/// Errors of a notification that the library decides.
#[derive(Debug)]
pub enum Error {
    /// `notify-send` exited with a failure status (-1 where it was killed by a signal).
    NonZeroExit { status: i32 },
}

/// Urgency level for desktop notifications.
#[derive(Clone, Copy, Debug, PartialEq, Eq, Structural)]
pub enum Urgency {
    Normal,
    Critical,
}

/// The word `notify-send` takes for an urgency.
pub open spec fn urgency_word(urgency: Urgency) -> Seq<char> {
    match urgency {
        Urgency::Normal => "normal"@,
        Urgency::Critical => "critical"@,
    }
}

impl Urgency {
    /// The word `notify-send` takes for this urgency.
    pub fn as_str(self) -> (s: &'static str)
        ensures
            s@ == urgency_word(self),
            self == Urgency::Normal ==> s@ == "normal"@,
            self == Urgency::Critical ==> s@ == "critical"@,
    {
        match self {
            Urgency::Normal => "normal",
            Urgency::Critical => "critical",
        }
    }
}

/// A program to run and the arguments to hand it.
#[derive(Debug)]
pub struct NotifyCommand {
    pub program: String,
    pub args: Vec<String>,
}

/// The arguments of a `notify-send` call, in order.
pub open spec fn notify_args(summary: Seq<char>, body: Seq<char>, urgency: Urgency) -> Seq<
    Seq<char>,
> {
    seq![
        "--urgency"@,
        urgency_word(urgency),
        "--app-name"@,
        "HortProChecker"@,
        summary,
        body,
    ]
}

/// For every urgency the command line is the urgency flag and word, the
/// application name, then the summary and then the body, in that order.
pub proof fn lemma_notify_args_layout(summary: Seq<char>, body: Seq<char>, urgency: Urgency)
    ensures
        notify_args(summary, body, urgency).len() == 6,
        notify_args(summary, body, urgency)[0] == "--urgency"@,
        urgency == Urgency::Normal ==> notify_args(summary, body, urgency)[1] == "normal"@,
        urgency == Urgency::Critical ==> notify_args(summary, body, urgency)[1] == "critical"@,
        notify_args(summary, body, urgency)[2] == "--app-name"@,
        notify_args(summary, body, urgency)[3] == "HortProChecker"@,
        notify_args(summary, body, urgency)[4] == summary,
        notify_args(summary, body, urgency)[5] == body,
{
}

/// Builds the `notify-send` command without executing it.
pub fn build_command(summary: &str, body: &str, urgency: Urgency) -> (cmd: NotifyCommand)
    ensures
        cmd.program@ == "notify-send"@,
        cmd.args@.len() == 6,
        forall|i: int|
            0 <= i < 6 ==> #[trigger] cmd.args@[i]@ == notify_args(summary@, body@, urgency)[i],
        cmd.args@[0]@ == "--urgency"@,
        urgency == Urgency::Normal ==> cmd.args@[1]@ == "normal"@,
        urgency == Urgency::Critical ==> cmd.args@[1]@ == "critical"@,
        cmd.args@[2]@ == "--app-name"@,
        cmd.args@[3]@ == "HortProChecker"@,
        cmd.args@[4]@ == summary@,
        cmd.args@[5]@ == body@,
{
    let mut args: Vec<String> = Vec::new();
    args.push("--urgency".to_owned());
    args.push(urgency.as_str().to_owned());
    args.push("--app-name".to_owned());
    args.push("HortProChecker".to_owned());
    args.push(summary.to_owned());
    args.push(body.to_owned());
    NotifyCommand { program: "notify-send".to_owned(), args }
}

/// The status a failure reports: the exit code, or -1 where there is none.
pub open spec fn exit_status(code: Option<i32>) -> i32 {
    match code {
        Some(c) => c,
        None => -1i32,
    }
}

/// The outcome of a finished `notify-send`: success, or its exit code (-1 where
/// it has none).
pub fn exit_outcome(success: bool, code: Option<i32>) -> (res: Result<(), Error>)
    ensures
        success ==> res is Ok,
        !success ==> res == Err::<(), Error>(Error::NonZeroExit { status: exit_status(code) }),
        !success && code is Some ==> res == Err::<(), Error>(Error::NonZeroExit { status: code->Some_0 }),
        !success && code is None ==> res == Err::<(), Error>(Error::NonZeroExit { status: -1i32 }),
{
    if !success {
        let status = match code {
            Some(c) => c,
            None => -1,
        };
        return Err(Error::NonZeroExit { status });
    }
    Ok(())
}

} // verus!
