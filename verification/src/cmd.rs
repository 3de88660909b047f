//! Shell scripts as values.
//!
//! A [`Script`] is an ordered list of typed [`Command`]s together with a
//! strict-mode flag. Nothing in this module starts a process: a script is
//! turned into the text that is handed to `bash -c` by [`Script::render`],
//! and the way a finished process is judged is [`exit_result`].

use vstd::prelude::*;
use vstd::string::*;

verus! {

/// `std::io::Error`, carried through unread.
#[verifier::external_type_specification]
#[verifier::external_body]
pub struct ExIoError(std::io::Error);

/// Why a script did not run to a successful end.
#[derive(Debug)]
pub enum ShellError {
    /// The shell could not be started, or could not be waited for.
    IoError(std::io::Error),
    /// The shell ran and ended with a status other than success. The code is
    /// `None` when the process was ended by a signal.
    BadExitCode(Option<i32>),
}

impl View for ShellError {
    type V = ShellError;

    open spec fn view(&self) -> ShellError {
        *self
    }
}

/// How a finished process is judged: success, or the exit code it failed with.
pub open spec fn exit_outcome(success: bool, code: Option<i32>) -> Result<(), ShellError> {
    if success {
        Ok(())
    } else {
        Err(ShellError::BadExitCode(code))
    }
}

/// Judges a finished process from what its exit status reports: whether it
/// succeeded, and its exit code if it has one.
pub fn exit_result(success: bool, code: Option<i32>) -> (result: Result<(), ShellError>)
    ensures
        result == exit_outcome(success, code),
{
    if !success {
        return Err(ShellError::BadExitCode(code));
    }
    Ok(())
}

/// One character of an argument, as it is written between single quotes: a
/// single quote ends the quoting, stands escaped, and opens the quoting again.
pub open spec fn quoted_char(c: char) -> Seq<char> {
    if c == '\'' {
        "'\\''"@
    } else {
        seq![c]
    }
}

/// The characters of an argument, as they are written between single quotes.
pub open spec fn quoted_chars(arg: Seq<char>) -> Seq<char>
    decreases arg.len(),
{
    if arg.len() == 0 {
        Seq::empty()
    } else {
        quoted_chars(arg.drop_last()) + quoted_char(arg.last())
    }
}

/// An argument as it is written in a command: in single quotes, so that the
/// shell takes it for one word and reads nothing into it, whatever it holds.
pub open spec fn quoted(arg: Seq<char>) -> Seq<char> {
    "'"@ + quoted_chars(arg) + "'"@
}

/// Writes an argument out as one word of shell text.
pub fn quote(arg: &str) -> (word: String)
    ensures
        word@ == quoted(arg@),
{
    let mut word = String::from_str("'");
    let count = arg.unicode_len();
    let mut i: usize = 0;
    while i < count
        invariant
            count == arg@.len(),
            i <= count,
            word@ == "'"@ + quoted_chars(arg@.take(i as int)),
        decreases count - i,
    {
        if arg.get_char(i) == '\'' {
            word.append("'\\''");
        } else {
            word.append(arg.substring_char(i, i + 1));
            assert(arg@.subrange(i as int, i + 1) =~= seq![arg@[i as int]]);
        }
        proof {
            let done = arg@.take(i as int + 1);
            assert(done.drop_last() =~= arg@.take(i as int));
            assert(done.last() == arg@[i as int]);
        }
        i += 1;
    }
    assert(arg@.take(i as int) =~= arg@);
    word.append("'");
    word
}

/// An argument that holds no single quote is written as it is, between two
/// single quotes.
pub proof fn law_plain_argument_is_wrapped(arg: Seq<char>)
    requires
        !arg.contains('\''),
    ensures
        quoted(arg) == "'"@ + arg + "'"@,
{
    lemma_plain_characters_are_kept(arg);
}

proof fn lemma_plain_characters_are_kept(arg: Seq<char>)
    requires
        !arg.contains('\''),
    ensures
        quoted_chars(arg) == arg,
    decreases arg.len(),
{
    if arg.len() > 0 {
        assert(arg.last() == arg[arg.len() - 1]);
        assert forall|c: char| arg.drop_last().contains(c) implies arg.contains(c) by {
            let i = choose|i: int| 0 <= i < arg.drop_last().len() && arg.drop_last()[i] == c;
            assert(arg[i] == c);
        }
        lemma_plain_characters_are_kept(arg.drop_last());
        assert(arg.drop_last() + seq![arg.last()] =~= arg);
    }
}

/// Where the shell stands while it reads the text of a word.
pub enum Quoting {
    /// Outside of quotes.
    Outside,
    /// Between a single quote and the next one.
    Inside,
    /// Outside of quotes, right after a backslash.
    Escaped,
}

/// What the shell has made of the text of a word so far. `word` is `None`
/// once a character stood outside of quotes without being escaped: what the
/// shell makes of such a character depends on the character.
pub struct Reading {
    pub quoting: Quoting,
    pub word: Option<Seq<char>>,
}

impl Reading {
    /// The reading goes on by one character. Between single quotes every
    /// character but the single quote stands for itself, and so does the
    /// character after a backslash outside of quotes.
    pub open spec fn read(self, c: char) -> Reading {
        let taken = match self.word {
            Some(word) => Some(word.push(c)),
            None => None,
        };
        match self.quoting {
            Quoting::Outside => if c == '\'' {
                Reading { quoting: Quoting::Inside, word: self.word }
            } else if c == '\\' {
                Reading { quoting: Quoting::Escaped, word: self.word }
            } else {
                Reading { quoting: Quoting::Outside, word: None }
            },
            Quoting::Inside => if c == '\'' {
                Reading { quoting: Quoting::Outside, word: self.word }
            } else {
                Reading { quoting: Quoting::Inside, word: taken }
            },
            Quoting::Escaped => Reading { quoting: Quoting::Outside, word: taken },
        }
    }
}

/// What the shell makes of a text, read from its start.
pub open spec fn reading_of(text: Seq<char>) -> Reading
    decreases text.len(),
{
    if text.len() == 0 {
        Reading { quoting: Quoting::Outside, word: Some(Seq::empty()) }
    } else {
        reading_of(text.drop_last()).read(text.last())
    }
}

/// The word that the shell reads from a text in which every character is
/// quoted or escaped: `None` for a text that ends inside quotes or after a
/// backslash, or that holds a character that is neither quoted nor escaped.
pub open spec fn word_read_from(text: Seq<char>) -> Option<Seq<char>> {
    match reading_of(text).quoting {
        Quoting::Outside => reading_of(text).word,
        _ => None,
    }
}

/// Inside quotes, the text that a character is written as is read back as
/// that character, and the reading is inside quotes again after it.
proof fn lemma_quoted_char_is_read_back(text: Seq<char>, word: Seq<char>, c: char)
    requires
        reading_of(text) == (Reading { quoting: Quoting::Inside, word: Some(word) }),
    ensures
        reading_of(text + quoted_char(c)) == (Reading {
            quoting: Quoting::Inside,
            word: Some(word.push(c)),
        }),
{
    if c == '\'' {
        reveal_strlit("'\\''");
        let first = text.push('\'');
        let second = first.push('\\');
        let third = second.push('\'');
        let fourth = third.push('\'');
        assert(first.drop_last() =~= text);
        assert(reading_of(first) == (Reading { quoting: Quoting::Outside, word: Some(word) }));
        assert(second.drop_last() =~= first);
        assert(reading_of(second) == (Reading { quoting: Quoting::Escaped, word: Some(word) }));
        assert(third.drop_last() =~= second);
        assert(reading_of(third) == (Reading {
            quoting: Quoting::Outside,
            word: Some(word.push(c)),
        }));
        assert(fourth.drop_last() =~= third);
        assert(text + quoted_char(c) =~= fourth);
    } else {
        let whole = text + quoted_char(c);
        assert(whole.drop_last() =~= text);
        assert(whole.last() == c);
    }
}

/// After the opening quote and the characters of an argument, written as
/// they are between quotes, the shell has read the argument and stands
/// inside quotes.
proof fn lemma_quoted_chars_are_read_back(arg: Seq<char>)
    ensures
        reading_of("'"@ + quoted_chars(arg)) == (Reading {
            quoting: Quoting::Inside,
            word: Some(arg),
        }),
    decreases arg.len(),
{
    reveal_strlit("'");
    if arg.len() == 0 {
        assert(("'"@ + quoted_chars(arg)).drop_last() =~= Seq::<char>::empty());
        assert(reading_of(Seq::<char>::empty()).word == Some(Seq::<char>::empty()));
        assert(arg =~= Seq::<char>::empty());
    } else {
        let before = arg.drop_last();
        lemma_quoted_chars_are_read_back(before);
        lemma_quoted_char_is_read_back("'"@ + quoted_chars(before), before, arg.last());
        assert("'"@ + quoted_chars(before) + quoted_char(arg.last()) =~= "'"@ + quoted_chars(arg));
        assert(before.push(arg.last()) =~= arg);
    }
}

/// Quoting is safe: whatever an argument holds, the shell reads its quoted
/// form as one word, and that word is the argument. No character of the
/// argument is ever read outside of quotes unescaped.
pub proof fn law_quoted_argument_is_read_back(arg: Seq<char>)
    ensures
        word_read_from(quoted(arg)) == Some(arg),
{
    reveal_strlit("'");
    lemma_quoted_chars_are_read_back(arg);
    assert(quoted(arg).drop_last() =~= "'"@ + quoted_chars(arg));
}

/// One line of a script.
#[derive(Debug, Clone, PartialEq, Eq)]
pub enum Command {
    /// `cd <dir>`
    ChangeDir(String),
    /// `mkdir -p <dir>`
    MakeDirs(String),
    /// `git status`
    GitStatus,
    /// `git diff-index --quiet HEAD --`: fails when the index or the working
    /// tree differs from `HEAD`.
    GitDiffIndex,
    /// `git clone <url> <path>`
    GitClone { url: String, path: String },
    /// `git checkout <branch>`
    GitCheckout(String),
    /// `git pull`
    GitPull,
    /// `cargo vendor --versioned-dirs`, its standard output written to
    /// `manifest`. With `keep`, `--no-delete` is passed, so that what was
    /// vendored before stays in place.
    CargoVendor { keep: bool, manifest: String },
    /// `cp <from> <to>`
    Copy { from: String, to: String },
}

/// The mathematical model of a [`Command`].
pub enum CommandView {
    ChangeDir(Seq<char>),
    MakeDirs(Seq<char>),
    GitStatus,
    GitDiffIndex,
    GitClone { url: Seq<char>, path: Seq<char> },
    GitCheckout(Seq<char>),
    GitPull,
    CargoVendor { keep: bool, manifest: Seq<char> },
    Copy { from: Seq<char>, to: Seq<char> },
}

impl DeepView for Command {
    type V = CommandView;

    open spec fn deep_view(&self) -> CommandView {
        match self {
            Command::ChangeDir(dir) => CommandView::ChangeDir(dir@),
            Command::MakeDirs(dir) => CommandView::MakeDirs(dir@),
            Command::GitStatus => CommandView::GitStatus,
            Command::GitDiffIndex => CommandView::GitDiffIndex,
            Command::GitClone { url, path } => CommandView::GitClone { url: url@, path: path@ },
            Command::GitCheckout(branch) => CommandView::GitCheckout(branch@),
            Command::GitPull => CommandView::GitPull,
            Command::CargoVendor { keep, manifest } => CommandView::CargoVendor {
                keep: *keep,
                manifest: manifest@,
            },
            Command::Copy { from, to } => CommandView::Copy { from: from@, to: to@ },
        }
    }
}

impl View for Command {
    type V = CommandView;

    open spec fn view(&self) -> CommandView {
        self.deep_view()
    }
}

impl CommandView {
    /// The line of shell text that the command stands for. Every argument
    /// is written as one quoted word.
    pub open spec fn text(self) -> Seq<char> {
        match self {
            CommandView::ChangeDir(dir) => "cd "@ + quoted(dir),
            CommandView::MakeDirs(dir) => "mkdir -p "@ + quoted(dir),
            CommandView::GitStatus => "git status"@,
            CommandView::GitDiffIndex => "git diff-index --quiet HEAD --"@,
            CommandView::GitClone { url, path } => "git clone "@ + quoted(url) + " "@ + quoted(
                path,
            ),
            CommandView::GitCheckout(branch) => "git checkout "@ + quoted(branch),
            CommandView::GitPull => "git pull"@,
            CommandView::CargoVendor { keep, manifest } => if keep {
                "cargo vendor --no-delete --versioned-dirs 1> "@ + quoted(manifest)
            } else {
                "cargo vendor --versioned-dirs 1> "@ + quoted(manifest)
            },
            CommandView::Copy { from, to } => "cp "@ + quoted(from) + " "@ + quoted(to),
        }
    }
}

impl Command {
    /// Writes the command out as a line of shell text.
    pub fn render(&self) -> (text: String)
        ensures
            text@ == self@.text(),
    {
        match self {
            Command::ChangeDir(dir) => String::from_str("cd ").concat(quote(dir.as_str()).as_str()),
            Command::MakeDirs(dir) => String::from_str("mkdir -p ").concat(
                quote(dir.as_str()).as_str(),
            ),
            Command::GitStatus => String::from_str("git status"),
            Command::GitDiffIndex => String::from_str("git diff-index --quiet HEAD --"),
            Command::GitClone { url, path } => String::from_str("git clone ").concat(
                quote(url.as_str()).as_str(),
            ).concat(" ").concat(quote(path.as_str()).as_str()),
            Command::GitCheckout(branch) => String::from_str("git checkout ").concat(
                quote(branch.as_str()).as_str(),
            ),
            Command::GitPull => String::from_str("git pull"),
            Command::CargoVendor { keep, manifest } => {
                let head = if *keep {
                    String::from_str("cargo vendor --no-delete --versioned-dirs 1> ")
                } else {
                    String::from_str("cargo vendor --versioned-dirs 1> ")
                };
                head.concat(quote(manifest.as_str()).as_str())
            },
            Command::Copy { from, to } => String::from_str("cp ").concat(
                quote(from.as_str()).as_str(),
            ).concat(" ").concat(quote(to.as_str()).as_str()),
        }
    }
}

/// The text of a list of commands: each command's line, ended by a newline.
pub open spec fn lines_text(commands: Seq<CommandView>) -> Seq<char>
    decreases commands.len(),
{
    if commands.len() == 0 {
        Seq::empty()
    } else {
        lines_text(commands.drop_last()) + commands.last().text() + "\n"@
    }
}

/// An ordered list of commands for one run of the shell.
///
/// In strict mode the shell stops at the first command that fails, treats an
/// unset variable as an error, and echoes each command as it runs it.
#[derive(Debug, Clone, PartialEq, Eq)]
pub struct Script {
    pub strict: bool,
    pub commands: Vec<Command>,
}

/// The mathematical model of a [`Script`].
pub struct ScriptView {
    pub strict: bool,
    pub commands: Seq<CommandView>,
}

impl View for Script {
    type V = ScriptView;

    open spec fn view(&self) -> ScriptView {
        ScriptView { strict: self.strict, commands: self.commands.deep_view() }
    }
}

impl ScriptView {
    /// The first line of the script's text: the shell options of strict mode,
    /// or nothing.
    pub open spec fn prefix(self) -> Seq<char> {
        if self.strict {
            "set -euxo pipefail"@
        } else {
            Seq::empty()
        }
    }

    /// The text handed to the shell: the prefix line, then one line for each
    /// command.
    pub open spec fn text(self) -> Seq<char> {
        self.prefix() + "\n"@ + lines_text(self.commands)
    }
}

impl Script {
    /// A script without commands.
    pub fn new(strict: bool) -> (script: Script)
        ensures
            script@ == (ScriptView { strict, commands: Seq::empty() }),
    {
        let script = Script { strict, commands: Vec::new() };
        assert(script@.commands =~= Seq::empty());
        script
    }

    /// The script with one more command at its end.
    pub fn with(self, command: Command) -> (script: Script)
        ensures
            script@ == (ScriptView {
                strict: self@.strict,
                commands: self@.commands.push(command@),
            }),
    {
        let mut commands = self.commands;
        commands.push(command);
        let script = Script { strict: self.strict, commands };
        assert(script@.commands =~= self@.commands.push(command@));
        script
    }

    /// Writes the script out as the text that is handed to `bash -c`.
    pub fn render(&self) -> (text: String)
        ensures
            text@ == self@.text(),
    {
        let mut text = if self.strict {
            String::from_str("set -euxo pipefail")
        } else {
            String::new()
        };
        text.append("\n");
        let mut i: usize = 0;
        while i < self.commands.len()
            invariant
                i <= self.commands.len(),
                text@ == self@.prefix() + "\n"@ + lines_text(self@.commands.take(i as int)),
            decreases self.commands.len() - i,
        {
            let line = self.commands[i].render();
            text.append(line.as_str());
            text.append("\n");
            proof {
                let done = self@.commands.take(i as int + 1);
                assert(done.drop_last() =~= self@.commands.take(i as int));
                assert(done.last() == self.commands[i as int]@);
            }
            i += 1;
        }
        assert(self@.commands.take(i as int) =~= self@.commands);
        text
    }
}

} // verus!
