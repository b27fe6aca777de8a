//! The terminal front end's state machines: the application modes, the
//! command console with its fuzzy-matched command line, and the exact
//! choice of the best match. Drawing and raw key events stay with the
//! caller; everything decided here is verified.
use vstd::prelude::*;

verus! {

use vstd::string::*;
use crate::text::{string_pop, string_push};

/// The key presses the front end distinguishes.
#[derive(Clone, Copy, Debug, PartialEq, Eq, Structural)]
pub enum KeyCode {
    Esc,
    Enter,
    Backspace,
    Char(char),
    Other,
}

/// One event of the input loop: a key press, or a timer tick asking
/// for a redraw.
#[derive(Clone, Copy, Debug, PartialEq, Eq, Structural)]
pub enum InputEvent {
    Key(KeyCode),
    Tick,
}

#[derive(Clone, Copy, Debug, PartialEq, Eq, Structural)]
pub enum AppMode {
    Normal,
    Input,
}

#[derive(Clone, Copy, Debug, PartialEq, Eq, Structural)]
pub enum AppCommand {
    SetMode(AppMode),
    PushInputChar(char),
    PopInputChar,
    QuitApp,
}

#[verifier::external_type_specification]
#[verifier::external_body]
pub struct ExSkimMatcherV2(fuzzy_matcher::skim::SkimMatcherV2);

/// Relies on `SkimMatcherV2::default`: a fresh fuzzy matcher.
#[verifier::external_body]
fn matcher_default() -> fuzzy_matcher::skim::SkimMatcherV2 {
    fuzzy_matcher::skim::SkimMatcherV2::default()
}

/// Relies on `SkimMatcherV2::ignore_case`: the same matcher, set to
/// score without regard to case.
#[verifier::external_body]
fn matcher_ignore_case(m: fuzzy_matcher::skim::SkimMatcherV2) -> fuzzy_matcher::skim::SkimMatcherV2 {
    m.ignore_case()
}

/// Relies on `FuzzyMatcher::fuzzy_match`: the matcher's score for
/// `pattern` against `choice`, or `None` where they do not match. The
/// score depends on the matcher's configuration, so nothing is assumed
/// of its value; the code below is verified for every outcome.
#[verifier::external_body]
fn fuzzy_match_score(
    matcher: &fuzzy_matcher::skim::SkimMatcherV2,
    choice: &str,
    pattern: &str,
) -> Option<i64> {
    fuzzy_matcher::FuzzyMatcher::fuzzy_match(matcher, choice, pattern)
}

/// The value a score contributes to the choice of the best match:
/// only positive scores count.
pub open spec fn pos_score(o: Option<i64>) -> int {
    match o {
        Some(s) => if s > 0 {
            s as int
        } else {
            0
        },
        None => 0,
    }
}

/// Picks the command to suggest from a list of match scores: the first
/// index carrying the highest positive score, or nothing when no score
/// is positive.
pub fn best_match(scores: &Vec<Option<i64>>) -> (r: Option<(usize, i64)>)
    ensures
        match r {
            Some((mi, ms)) => {
                &&& (mi as int) < scores@.len()
                &&& scores@[mi as int] == Some(ms)
                &&& ms > 0
                &&& forall|j: int| 0 <= j < scores@.len() ==> pos_score(#[trigger] scores@[j]) <= ms
                &&& forall|j: int| 0 <= j < mi ==> pos_score(#[trigger] scores@[j]) < ms
            },
            None => forall|j: int| 0 <= j < scores@.len() ==> pos_score(#[trigger] scores@[j]) == 0,
        },
{
    let mut matched: Option<(usize, i64)> = None;
    let mut i: usize = 0;
    while i < scores.len()
        invariant
            i <= scores@.len(),
            match matched {
                Some((mi, ms)) => {
                    &&& (mi as int) < i
                    &&& scores@[mi as int] == Some(ms)
                    &&& ms > 0
                    &&& forall|j: int| 0 <= j < i ==> pos_score(#[trigger] scores@[j]) <= ms
                    &&& forall|j: int| 0 <= j < mi ==> pos_score(#[trigger] scores@[j]) < ms
                },
                None => forall|j: int| 0 <= j < i ==> pos_score(#[trigger] scores@[j]) == 0,
            },
        decreases scores@.len() - i,
    {
        match scores[i] {
            Some(score) => {
                let better = match matched {
                    None => score > 0,
                    Some((_, ms)) => score > 0 && score > ms,
                };
                if better {
                    matched = Some((i, score));
                }
            },
            None => {},
        }
        i = i + 1;
    }
    matched
}

/// The command console: the line being typed, the fuzzy matcher, the
/// currently suggested command, and the commands on offer.
pub struct Console {
    pub input_string: String,
    pub matcher: fuzzy_matcher::skim::SkimMatcherV2,
    pub matched: Option<(usize, i64)>,
    pub cmds: Vec<(String, AppCommand)>,
}

impl Console {
    /// A suggestion, when present, names a real command with a
    /// positive score.
    pub open spec fn wf(self) -> bool {
        match self.matched {
            Some((mi, ms)) => (mi as int) < self.cmds@.len() && ms > 0,
            None => true,
        }
    }

    /// A console offering the one command `quit`, with nothing typed
    /// and nothing suggested.
    pub fn new() -> (r: Console)
        ensures
            r.wf(),
            r.input_string@ == Seq::<char>::empty(),
            r.matched.is_none(),
            r.cmds@.len() == 1,
            r.cmds@[0].0@ == "quit"@,
            r.cmds@[0].1 == AppCommand::QuitApp,
    {
        let matcher = matcher_ignore_case(matcher_default());
        let mut cmds: Vec<(String, AppCommand)> = Vec::new();
        cmds.push((String::from_str("quit"), AppCommand::QuitApp));
        let input_string = String::new();
        proof {
            assert(input_string@ =~= Seq::<char>::empty());
        }
        Console { input_string, matcher, matched: None, cmds }
    }

    /// Re-scores every command against the current line and suggests
    /// the best match. The scores come from the fuzzy matcher, so the
    /// suggestion is not pinned here; whatever the matcher returns,
    /// the suggestion is chosen by `best_match` and names a real
    /// command.
    pub fn on_string_changed(&mut self)
        ensures
            final(self).wf(),
            final(self).input_string == old(self).input_string,
            final(self).cmds == old(self).cmds,
    {
        let mut scores: Vec<Option<i64>> = Vec::new();
        let mut i: usize = 0;
        while i < self.cmds.len()
            invariant
                i <= self.cmds@.len(),
                scores@.len() == i,
                self.input_string == old(self).input_string,
                self.cmds == old(self).cmds,
                self.matched == old(self).matched,
            decreases self.cmds@.len() - i,
        {
            let s = fuzzy_match_score(
                &self.matcher,
                self.cmds[i].0.as_str(),
                self.input_string.as_str(),
            );
            scores.push(s);
            i = i + 1;
        }
        self.matched = best_match(&scores);
    }

    /// The command that a key press in input mode stands for.
    pub open spec fn input_spec(self, evt: InputEvent) -> Option<AppCommand> {
        match evt {
            InputEvent::Key(k) => match k {
                KeyCode::Esc => Some(AppCommand::SetMode(AppMode::Normal)),
                KeyCode::Enter => match self.matched {
                    Some((mi, _)) => Some(self.cmds@[mi as int].1),
                    None => None,
                },
                KeyCode::Backspace => Some(AppCommand::PopInputChar),
                KeyCode::Char(c) => Some(AppCommand::PushInputChar(c)),
                KeyCode::Other => None,
            },
            InputEvent::Tick => None,
        }
    }

    /// Translates a key press: escape leaves input mode, enter fires
    /// the suggested command, and editing keys become editing commands.
    pub fn handle_input(&self, evt: InputEvent) -> (r: Option<AppCommand>)
        requires
            self.wf(),
        ensures
            r == self.input_spec(evt),
    {
        match evt {
            InputEvent::Key(k) => match k {
                KeyCode::Esc => Some(AppCommand::SetMode(AppMode::Normal)),
                KeyCode::Enter => match self.matched {
                    Some((mi, _)) => Some(self.cmds[mi].1),
                    None => None,
                },
                KeyCode::Backspace => Some(AppCommand::PopInputChar),
                KeyCode::Char(c) => Some(AppCommand::PushInputChar(c)),
                KeyCode::Other => None,
            },
            InputEvent::Tick => None,
        }
    }

    /// Applies an editing command to the line (appending or removing
    /// one character) and re-runs the matcher; other commands leave the
    /// console unchanged.
    pub fn handle_command(&mut self, cmd: AppCommand)
        requires
            old(self).wf(),
        ensures
            final(self).wf(),
            final(self).cmds == old(self).cmds,
            match cmd {
                AppCommand::PushInputChar(c) => final(self).input_string@ == old(
                    self,
                ).input_string@.push(c),
                AppCommand::PopInputChar => final(self).input_string@ == if old(
                    self,
                ).input_string@.len() == 0 {
                    old(self).input_string@
                } else {
                    old(self).input_string@.drop_last()
                },
                _ => *final(self) == *old(self),
            },
    {
        match cmd {
            AppCommand::PopInputChar => {
                let _ = string_pop(&mut self.input_string);
                self.on_string_changed();
            },
            AppCommand::PushInputChar(c) => {
                string_push(&mut self.input_string, c);
                self.on_string_changed();
            },
            _ => {},
        }
    }
}

/// The application: which mode it is in, and its console.
pub struct App {
    pub app_mode: AppMode,
    pub console: Console,
}

impl App {
    pub open spec fn wf(self) -> bool {
        self.console.wf()
    }

    /// A fresh application in normal mode.
    pub fn new() -> (r: App)
        ensures
            r.wf(),
            r.app_mode == AppMode::Normal,
            r.console.input_string@ == Seq::<char>::empty(),
            r.console.matched.is_none(),
            r.console.cmds@.len() == 1,
            r.console.cmds@[0].0@ == "quit"@,
            r.console.cmds@[0].1 == AppCommand::QuitApp,
    {
        App { app_mode: AppMode::Normal, console: Console::new() }
    }

    pub fn set_mode(&mut self, mode: AppMode)
        ensures
            final(self).app_mode == mode,
            final(self).console == old(self).console,
    {
        self.app_mode = mode;
    }

    /// The command that a key press stands for, given the mode.
    pub open spec fn input_spec(self, evt: InputEvent) -> Option<AppCommand> {
        match evt {
            InputEvent::Key(k) => match self.app_mode {
                AppMode::Normal => match k {
                    KeyCode::Char(c) => if c == '/' {
                        Some(AppCommand::SetMode(AppMode::Input))
                    } else {
                        None
                    },
                    KeyCode::Esc => Some(AppCommand::QuitApp),
                    _ => None,
                },
                AppMode::Input => self.console.input_spec(evt),
            },
            InputEvent::Tick => None,
        }
    }

    /// Translates a key press: in normal mode `/` opens the console
    /// and escape quits; in input mode the console decides.
    pub fn handle_input(&self, evt: InputEvent) -> (r: Option<AppCommand>)
        requires
            self.wf(),
        ensures
            r == self.input_spec(evt),
    {
        match evt {
            InputEvent::Key(k) => match self.app_mode {
                AppMode::Normal => match k {
                    KeyCode::Char(c) => if c == '/' {
                        Some(AppCommand::SetMode(AppMode::Input))
                    } else {
                        None
                    },
                    KeyCode::Esc => Some(AppCommand::QuitApp),
                    _ => None,
                },
                AppMode::Input => self.console.handle_input(evt),
            },
            InputEvent::Tick => None,
        }
    }

    /// Mode changes are applied here; everything else goes to the
    /// console.
    pub fn handle_command(&mut self, cmd: AppCommand)
        requires
            old(self).wf(),
        ensures
            final(self).wf(),
            match cmd {
                AppCommand::SetMode(m) => {
                    &&& final(self).app_mode == m
                    &&& final(self).console == old(self).console
                },
                AppCommand::PushInputChar(c) => {
                    &&& final(self).app_mode == old(self).app_mode
                    &&& final(self).console.input_string@ == old(
                        self,
                    ).console.input_string@.push(c)
                    &&& final(self).console.cmds == old(self).console.cmds
                },
                AppCommand::PopInputChar => {
                    &&& final(self).app_mode == old(self).app_mode
                    &&& final(self).console.input_string@ == (if old(
                        self,
                    ).console.input_string@.len() == 0 {
                        old(self).console.input_string@
                    } else {
                        old(self).console.input_string@.drop_last()
                    })
                    &&& final(self).console.cmds == old(self).console.cmds
                },
                AppCommand::QuitApp => *final(self) == *old(self),
            },
    {
        match cmd {
            AppCommand::SetMode(mode) => self.set_mode(mode),
            _ => {
                self.console.handle_command(cmd);
            },
        }
    }
}

} // verus!
