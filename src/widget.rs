//! The widgets: their configuration, their runtime state, and how command
//! output updates them.

use vstd::prelude::*;

use crate::schedule::{is_due, refresh_due};
use crate::text::{
    flag_reading, leading_number, parse_flag_reading, parse_leading_number, split_words,
    strings_view, words,
};

verus! {

/// Why a widget could not be updated or drawn.
#[derive(Debug, Clone, Copy, PartialEq, Eq, Structural)]
pub enum WidgetError {
    /// Command output is not a value of the expected kind.
    Parse,
    /// The viewport is too narrow, or a position falls outside it.
    Viewport,
}

/// Global settings.
pub struct Settings {
    pub bloatie: bool,
}

/// A command line that holds no word at all: there is nothing to run.
pub open spec fn blank(s: Seq<char>) -> bool {
    words(s).len() == 0
}

/// A program and its arguments.
pub struct CommandLine {
    pub program: String,
    pub args: Vec<String>,
}

impl CommandLine {
    /// The program, then its arguments.
    pub open spec fn words_view(self) -> Seq<Seq<char>> {
        seq![self.program@] + strings_view(self.args@)
    }
}

/// Runs a command line and hands back its trimmed standard output.
pub trait CommandExt {
    fn get_stdout(&mut self, command: &CommandLine) -> String;
}

/// The command line to run for `command`: its first word names the program,
/// the others are its arguments. `None` when it has no word.
pub fn construct_command(command: &str) -> (r: Option<CommandLine>)
    ensures
        r is Some <==> !blank(command@),
        r is Some ==> r->0.words_view() == words(command@),
{
    let mut split = split_words(command);
    if split.len() == 0 {
        None
    } else {
        let ghost all = split@;
        let program = split.remove(0);
        assert(seq![program@] + strings_view(split@) =~= strings_view(all));
        Some(CommandLine { program, args: split })
    }
}

/// A layout spacer, with an optional title.
pub struct Seperator {
    pub title: Option<String>,
    pub right: bool,
    pub bottom: bool,
}

/// A flag read from a command: its first word, then descriptive text.
pub struct Indicator {
    pub title: Option<String>,
    pub command: String,
    pub frequency: u64,
    pub right: bool,
    pub bottom: bool,
    pub value: bool,
    pub reading: String,
    /// The second at which the last refresh happened.
    pub timer: Option<u64>,
}

impl Indicator {
    /// The configuration fields are those of `o`.
    pub open spec fn same_config(self, o: Indicator) -> bool {
        &&& self.title == o.title
        &&& self.command == o.command
        &&& self.frequency == o.frequency
        &&& self.right == o.right
        &&& self.bottom == o.bottom
    }

    /// What an update at `now` that returned `r` may have made of `self`:
    /// nothing when no refresh is due or the update failed; the time only
    /// when the command has no word; otherwise the time, and the flag and
    /// text read from some output.
    pub open spec fn updated(self, next: Indicator, now: u64, r: Result<(), WidgetError>) -> bool {
        let due = refresh_due(self.timer, self.frequency, now);
        &&& r is Err ==> r == Err::<(), WidgetError>(WidgetError::Parse) && next == self
        &&& !due ==> r is Ok && next == self
        &&& due && blank(self.command@) ==> r is Ok && next == (Indicator {
            timer: Some(now),
            ..self
        })
        &&& r is Ok ==> next == (Indicator {
            value: next.value,
            reading: next.reading,
            timer: next.timer,
            ..self
        })
        &&& due && r is Ok ==> next.timer == Some(now)
        &&& r is Ok && due && !blank(self.command@) ==> exists|out: Seq<char>|
            flag_reading(out) == Some((next.value, next.reading@))
    }

    /// What start-up that returned `r` may have made of `self`: nothing when
    /// the command has no word or the output was bad; otherwise the flag and
    /// text read from some output.
    pub open spec fn initialized(self, next: Indicator, r: Result<(), WidgetError>) -> bool {
        &&& blank(self.command@) ==> r is Ok && next == self
        &&& r is Err ==> r == Err::<(), WidgetError>(WidgetError::Parse) && next == self
        &&& r is Ok ==> next == (Indicator { value: next.value, reading: next.reading, ..self })
        &&& r is Ok && !blank(self.command@) ==> exists|out: Seq<char>|
            flag_reading(out) == Some((next.value, next.reading@))
    }

    /// A new indicator: flag off, no text, never refreshed.
    pub fn new(
        title: Option<String>,
        command: String,
        frequency: u64,
        right: bool,
        bottom: bool,
    ) -> (r: Indicator)
        ensures
            r.title == title,
            r.command == command,
            r.frequency == frequency,
            r.right == right,
            r.bottom == bottom,
            r.value == false,
            r.reading@ == Seq::<char>::empty(),
            r.timer is None,
    {
        Indicator {
            title,
            command,
            frequency,
            right,
            bottom,
            value: false,
            reading: String::new(),
            timer: None,
        }
    }

    /// Takes in a command's output: the flag from its first word, the text
    /// from the words after it. On a bad flag word nothing changes.
    pub fn apply_output(&mut self, out: &str) -> (r: Result<(), WidgetError>)
        ensures
            match flag_reading(out@) {
                Some((b, t)) => {
                    &&& r is Ok
                    &&& final(self).value == b
                    &&& final(self).reading@ == t
                    &&& *final(self) == (Indicator {
                        value: final(self).value,
                        reading: final(self).reading,
                        ..*old(self)
                    })
                },
                None => r == Err::<(), WidgetError>(WidgetError::Parse) && *final(self)
                    == *old(self),
            },
    {
        match parse_flag_reading(out) {
            Some((b, rest)) => {
                self.value = b;
                self.reading = rest;
                Ok(())
            },
            None => Err(WidgetError::Parse),
        }
    }

    /// The command to run at `now`: one is given when a refresh is due and
    /// the command has a word.
    pub fn poll(&self, now: u64) -> (r: Option<CommandLine>)
        ensures
            r is Some <==> refresh_due(self.timer, self.frequency, now) && !blank(self.command@),
            r is Some ==> r->0.words_view() == words(self.command@),
    {
        if is_due(self.timer, self.frequency, now) {
            construct_command(self.command.as_str())
        } else {
            None
        }
    }

    /// Refreshes the flag from the command when a refresh is due at `now`;
    /// the time is recorded only when the refresh succeeds.
    pub fn update<C: CommandExt>(&mut self, now: u64, shell: &mut C) -> (r: Result<
        (),
        WidgetError,
    >)
        ensures
            old(self).updated(*final(self), now, r),
            !refresh_due(old(self).timer, old(self).frequency, now) || blank(old(self).command@)
                ==> *final(shell) == *old(shell),
    {
        match self.poll(now) {
            Some(line) => {
                let out = shell.get_stdout(&line);
                let r = self.apply_output(out.as_str());
                if r.is_ok() {
                    assert(flag_reading(out@) == Some((self.value, self.reading@)));
                    self.timer = Some(now);
                }
                r
            },
            None => {
                if is_due(self.timer, self.frequency, now) {
                    self.timer = Some(now);
                }
                Ok(())
            },
        }
    }

    /// Reads the flag and text once at start-up; a command with no word is
    /// skipped.
    pub fn init<C: CommandExt>(&mut self, shell: &mut C) -> (r: Result<(), WidgetError>)
        ensures
            old(self).initialized(*final(self), r),
            blank(old(self).command@) ==> *final(shell) == *old(shell),
    {
        match construct_command(self.command.as_str()) {
            Some(line) => {
                let out = shell.get_stdout(&line);
                let r = self.apply_output(out.as_str());
                if r.is_ok() {
                    assert(flag_reading(out@) == Some((self.value, self.reading@)));
                }
                r
            },
            None => Ok(()),
        }
    }
}

/// A value read from a command, shown against a maximum read from another.
pub struct Meter {
    pub title: String,
    pub unit: String,
    pub prefix: Option<String>,
    pub max_command: String,
    pub value_command: String,
    pub frequency: u64,
    pub right: bool,
    pub bottom: bool,
    /// Whether the theme draws a bar.
    pub meter: bool,
    /// Whether the `current/max` reading is shown.
    pub reading: bool,
    pub theme: usize,
    pub max_value: u64,
    pub current_value: u64,
    /// The second at which the last refresh happened.
    pub timer: Option<u64>,
}

impl Meter {
    /// The configuration fields are those of `o`.
    pub open spec fn same_config(self, o: Meter) -> bool {
        &&& self.title == o.title
        &&& self.unit == o.unit
        &&& self.prefix == o.prefix
        &&& self.max_command == o.max_command
        &&& self.value_command == o.value_command
        &&& self.frequency == o.frequency
        &&& self.right == o.right
        &&& self.bottom == o.bottom
        &&& self.meter == o.meter
        &&& self.reading == o.reading
        &&& self.theme == o.theme
    }

    /// The stock meter: memory in megabytes, refreshed every second.
    pub open spec fn is_stock(self) -> bool {
        &&& self.title@ == seq!['R', 'A', 'M']
        &&& self.unit@ == seq!['m', 'b']
        &&& self.prefix is None
        &&& self.max_command@ == seq!['e', 'c', 'h', 'o', ' ', '1', '6', '0', '1', '4']
        &&& self.value_command@ == seq!['m', 'e', 'm', 'c', 'h', 'e', 'c', 'k']
        &&& self.frequency == 1
        &&& self.right
        &&& !self.bottom
        &&& self.meter
        &&& self.reading
        &&& self.theme == 1
        &&& self.max_value == 0
        &&& self.current_value == 0
        &&& self.timer is None
    }

    /// The stock meter.
    pub fn new() -> (r: Meter)
        ensures
            r.is_stock(),
    {
        proof {
            reveal_strlit("RAM");
            reveal_strlit("mb");
            reveal_strlit("echo 16014");
            reveal_strlit("memcheck");
        }
        let r = Meter {
            title: "RAM".to_owned(),
            unit: "mb".to_owned(),
            prefix: None,
            max_command: "echo 16014".to_owned(),
            value_command: "memcheck".to_owned(),
            frequency: 1,
            right: true,
            bottom: false,
            meter: true,
            reading: true,
            theme: 1,
            max_value: 0,
            current_value: 0,
            timer: None,
        };
        assert(r.title@ =~= seq!['R', 'A', 'M']);
        assert(r.unit@ =~= seq!['m', 'b']);
        assert(r.max_command@ =~= seq!['e', 'c', 'h', 'o', ' ', '1', '6', '0', '1', '4']);
        assert(r.value_command@ =~= seq!['m', 'e', 'm', 'c', 'h', 'e', 'c', 'k']);
        r
    }

    /// What an update at `now` that returned `r` may have made of `self`:
    /// nothing when no refresh is due or the update failed; the time only
    /// when the command has no word; otherwise the time, and the current
    /// value read from some output.
    pub open spec fn updated(self, next: Meter, now: u64, r: Result<(), WidgetError>) -> bool {
        let due = refresh_due(self.timer, self.frequency, now);
        &&& r is Err ==> r == Err::<(), WidgetError>(WidgetError::Parse) && next == self
        &&& !due ==> r is Ok && next == self
        &&& due && blank(self.value_command@) ==> r is Ok && next == (Meter {
            timer: Some(now),
            ..self
        })
        &&& r is Ok ==> next == (Meter {
            current_value: next.current_value,
            timer: next.timer,
            ..self
        })
        &&& due && r is Ok ==> next.timer == Some(now)
        &&& r is Ok && due && !blank(self.value_command@) ==> exists|out: Seq<char>|
            leading_number(out) == Some(next.current_value)
    }

    /// What start-up that returned `r` may have made of `self`: nothing when
    /// the maximum's command has no word or the output was bad; otherwise the
    /// maximum read from some output.
    pub open spec fn initialized(self, next: Meter, r: Result<(), WidgetError>) -> bool {
        &&& blank(self.max_command@) ==> r is Ok && next == self
        &&& r is Err ==> r == Err::<(), WidgetError>(WidgetError::Parse) && next == self
        &&& r is Ok ==> next == (Meter { max_value: next.max_value, ..self })
        &&& r is Ok && !blank(self.max_command@) ==> exists|out: Seq<char>|
            leading_number(out) == Some(next.max_value)
    }

    /// Takes in the output of the maximum's command: the number its first
    /// word writes.
    pub fn apply_max(&mut self, out: &str) -> (r: Result<(), WidgetError>)
        ensures
            match leading_number(out@) {
                Some(v) => r is Ok && *final(self) == (Meter { max_value: v, ..*old(self) }),
                None => r == Err::<(), WidgetError>(WidgetError::Parse) && *final(self)
                    == *old(self),
            },
    {
        match parse_leading_number(out) {
            Some(v) => {
                self.max_value = v;
                Ok(())
            },
            None => Err(WidgetError::Parse),
        }
    }

    /// Takes in the output of the current value's command: the number its
    /// first word writes.
    pub fn apply_current(&mut self, out: &str) -> (r: Result<(), WidgetError>)
        ensures
            match leading_number(out@) {
                Some(v) => r is Ok && *final(self) == (Meter { current_value: v, ..*old(self) }),
                None => r == Err::<(), WidgetError>(WidgetError::Parse) && *final(self)
                    == *old(self),
            },
    {
        match parse_leading_number(out) {
            Some(v) => {
                self.current_value = v;
                Ok(())
            },
            None => Err(WidgetError::Parse),
        }
    }

    /// Reads the maximum once at start-up; a command with no word is skipped.
    pub fn init<C: CommandExt>(&mut self, shell: &mut C) -> (r: Result<(), WidgetError>)
        ensures
            old(self).initialized(*final(self), r),
            blank(old(self).max_command@) ==> *final(shell) == *old(shell),
    {
        match construct_command(self.max_command.as_str()) {
            Some(line) => {
                let out = shell.get_stdout(&line);
                let r = self.apply_max(out.as_str());
                if r.is_ok() {
                    assert(leading_number(out@) == Some(self.max_value));
                }
                r
            },
            None => Ok(()),
        }
    }

    /// The command to run at `now`: one is given when a refresh is due and
    /// the current value's command has a word.
    pub fn poll(&self, now: u64) -> (r: Option<CommandLine>)
        ensures
            r is Some <==> refresh_due(self.timer, self.frequency, now) && !blank(
                self.value_command@,
            ),
            r is Some ==> r->0.words_view() == words(self.value_command@),
    {
        if is_due(self.timer, self.frequency, now) {
            construct_command(self.value_command.as_str())
        } else {
            None
        }
    }

    /// Refreshes the current value from its command when a refresh is due at
    /// `now`; the time is recorded only when the refresh succeeds.
    pub fn update<C: CommandExt>(&mut self, now: u64, shell: &mut C) -> (r: Result<
        (),
        WidgetError,
    >)
        ensures
            old(self).updated(*final(self), now, r),
            !refresh_due(old(self).timer, old(self).frequency, now) || blank(
                old(self).value_command@,
            ) ==> *final(shell) == *old(shell),
    {
        match self.poll(now) {
            Some(line) => {
                let out = shell.get_stdout(&line);
                let r = self.apply_current(out.as_str());
                if r.is_ok() {
                    assert(leading_number(out@) == Some(self.current_value));
                    self.timer = Some(now);
                }
                r
            },
            None => {
                if is_due(self.timer, self.frequency, now) {
                    self.timer = Some(now);
                }
                Ok(())
            },
        }
    }
}

impl Default for Meter {
    fn default() -> (r: Meter)
        ensures
            r.is_stock(),
    {
        Meter::new()
    }
}

/// One widget of the bar.
pub enum Widget {
    Meter(Meter),
    Indicator(Indicator),
    Seperator(Seperator),
}

/// The widgets, in drawing order, and the global settings.
pub struct Conf {
    pub widgets: Vec<Widget>,
    pub settings: Settings,
}

/// An empty command has no word, so a widget configured with one is never
/// handed a command to run, whatever its last refresh and the time.
pub proof fn lemma_empty_command_never_runs(
    command: Seq<char>,
    timer: Option<u64>,
    interval: u64,
    now: u64,
)
    requires
        command.len() == 0,
    ensures
        blank(command),
        !(refresh_due(timer, interval, now) && !blank(command)),
{
}

} // verus!
