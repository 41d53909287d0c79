use vstd::prelude::*;
use crate::api::{ChatCompletionResponse, first_reply};
use crate::router::{ShellResult, no_directory, no_directory_reason};
use crate::text::{after_first, is_escaped, lower_of, lowercase, same_text, starts_with_bang, trim, trim_of};

verus! {

/// Who a history entry is from.
#[derive(Clone, Copy, Debug, PartialEq, Eq, Structural)]
pub enum Speaker {
    You,
    Ai,
    Shell,
    ShellError,
}

/// The tag shown before an entry.
pub open spec fn tag_of(s: Speaker) -> Seq<char> {
    match s {
        Speaker::You => "You"@,
        Speaker::Ai => "AI"@,
        Speaker::Shell => "SHELL"@,
        Speaker::ShellError => "SHELL_ERROR"@,
    }
}

impl Speaker {
    /// The tag shown before an entry of this speaker.
    pub fn tag(&self) -> (r: String)
        ensures
            r@ == tag_of(*self),
    {
        match self {
            Speaker::You => "You".to_string(),
            Speaker::Ai => "AI".to_string(),
            Speaker::Shell => "SHELL".to_string(),
            Speaker::ShellError => "SHELL_ERROR".to_string(),
        }
    }
}

/// One line of the console's history.
#[derive(Clone, Debug)]
pub struct HistoryEntry {
    pub speaker: Speaker,
    pub text: String,
}

/// An entry as a value: who, and what.
pub type Entry = (Speaker, Seq<char>);

impl View for HistoryEntry {
    type V = Entry;

    open spec fn view(&self) -> Entry {
        (self.speaker, self.text@)
    }
}

/// What a line typed at the console asks for.
#[derive(Clone, Debug)]
pub enum ConsoleCommand {
    /// Run this shell command.
    Shell(String),
    /// Leave the console.
    Exit,
    /// Ask the model this text.
    Ask(String),
}

/// How a trimmed line `t` is read, `lowered` being its lowercase form: `!`
/// runs the rest as a command, `exit` leaves, anything else is a question.
pub open spec fn console_reading(t: Seq<char>, lowered: Seq<char>, r: ConsoleCommand) -> bool {
    if is_escaped(t) {
        match r {
            ConsoleCommand::Shell(c) => c@ == t.drop_first(),
            _ => false,
        }
    } else if lowered == "exit"@ {
        r is Exit
    } else {
        match r {
            ConsoleCommand::Ask(q) => q@ == t,
            _ => false,
        }
    }
}

/// Reads a trimmed line, given its lowercase form.
pub fn classify_trimmed(input: String, lowered: &str) -> (r: ConsoleCommand)
    ensures
        console_reading(input@, lowered@, r),
{
    if starts_with_bang(input.as_str()) {
        ConsoleCommand::Shell(after_first(input.as_str()))
    } else if same_text(lowered, "exit") {
        ConsoleCommand::Exit
    } else {
        ConsoleCommand::Ask(input)
    }
}

/// Reads a line as typed: it is trimmed first.
pub fn classify_input(line: &str) -> (r: ConsoleCommand)
    ensures
        console_reading(trim_of(line@), lower_of(trim_of(line@)), r),
{
    let input = trim(line).to_string();
    let lowered = lowercase(input.as_str());
    classify_trimmed(input, lowered.as_str())
}

/// The entry that records an escaped command's result.
pub open spec fn shell_entry(o: ShellResult) -> Entry {
    match o {
        ShellResult::Succeeded(out) => (Speaker::Shell, out@),
        ShellResult::Failed(err) => (Speaker::ShellError, err@),
        ShellResult::SpawnFailed(why) => (Speaker::ShellError, "Failed to execute command: "@ + why@),
    }
}

/// The entry that records a response of the model.
pub open spec fn reply_entry(resp: ChatCompletionResponse) -> Entry {
    match first_reply(resp) {
        Some(t) => (Speaker::Ai, t),
        None => (Speaker::Ai, "OpenRouter returned no choices."@),
    }
}

/// The interactive console's state: the history shown on every redraw.
pub struct ConsoleSession {
    history: Vec<HistoryEntry>,
}

impl View for ConsoleSession {
    type V = Seq<Entry>;

    closed spec fn view(&self) -> Seq<Entry> {
        self.history@.map_values(|e: HistoryEntry| e@)
    }
}

impl ConsoleSession {
    /// A session with an empty history.
    pub fn new() -> (r: ConsoleSession)
        ensures
            r@ == Seq::<Entry>::empty(),
    {
        let r = ConsoleSession { history: Vec::new() };
        assert(r@ =~= Seq::<Entry>::empty());
        r
    }

    /// The history, oldest first.
    pub fn history(&self) -> (r: &Vec<HistoryEntry>)
        ensures
            r@.map_values(|e: HistoryEntry| e@) == self@,
    {
        &self.history
    }

    fn push(&mut self, speaker: Speaker, text: String)
        ensures
            final(self)@ == old(self)@.push((speaker, text@)),
    {
        let e = HistoryEntry { speaker, text };
        self.history.push(e);
        assert(self@ =~= old(self)@.push((speaker, e.text@)));
    }

    /// Records a question typed by the user.
    pub fn record_user(&mut self, text: String)
        ensures
            final(self)@ == old(self)@.push((Speaker::You, text@)),
    {
        self.push(Speaker::You, text);
    }

    /// Records the result of an escaped command.
    pub fn record_shell(&mut self, o: &ShellResult)
        ensures
            final(self)@ == old(self)@.push(shell_entry(*o)),
    {
        match o {
            ShellResult::Succeeded(out) => self.push(Speaker::Shell, out.clone()),
            ShellResult::Failed(err) => self.push(Speaker::ShellError, err.clone()),
            ShellResult::SpawnFailed(why) => {
                let mut s = "Failed to execute command: ".to_string();
                s.append(why.as_str());
                self.push(Speaker::ShellError, s);
            },
        }
    }

    /// Prepares an escaped command: with a working directory, hands back the
    /// command and the directory to run it in, leaving the history as it is;
    /// without one, runs nothing and records the error.
    pub fn prepare_shell(&mut self, command: String, working_dir: &Option<String>) -> (r: Option<(String, String)>)
        ensures
            match *working_dir {
                Some(d) => final(self)@ == old(self)@ && match r {
                    Some(p) => p.0@ == command@ && p.1@ == d@,
                    None => false,
                },
                None => r is None && final(self)@ == old(self)@.push(
                    (Speaker::ShellError, "Failed to execute command: "@ + no_directory_reason()),
                ),
            },
    {
        match working_dir {
            Some(d) => Some((command, d.clone())),
            None => {
                self.record_shell(&no_directory());
                None
            },
        }
    }

    /// Records a response of the model: its first choice, or a note that
    /// there was none.
    pub fn record_reply(&mut self, resp: &ChatCompletionResponse)
        ensures
            final(self)@ == old(self)@.push(reply_entry(*resp)),
    {
        match resp.first_content() {
            Some(t) => self.push(Speaker::Ai, t),
            None => self.push(Speaker::Ai, "OpenRouter returned no choices.".to_string()),
        }
    }

    /// Records a failed completion, described by `description`.
    pub fn record_failure(&mut self, description: &str)
        ensures
            final(self)@ == old(self)@.push(
                (Speaker::Ai, "Error getting OpenRouter completion: "@ + description@),
            ),
    {
        let mut s = "Error getting OpenRouter completion: ".to_string();
        s.append(description);
        self.push(Speaker::Ai, s);
    }
}

} // verus!
