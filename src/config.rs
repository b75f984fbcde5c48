//! Configuration: colours, per-severity colours and options.
use vstd::prelude::*;
use crate::text::{lower_of, lowercase, same_text};

verus! {

/// The named colours of the palette, as RGB triples.
#[derive(Debug, Clone, Copy)]
pub struct Palette {
    pub red: [u8; 3],
    pub black: [u8; 3],
    pub blue: [u8; 3],
    pub white: [u8; 3],
    pub gray: [u8; 3],
    pub green: [u8; 3],
}

/// One RGB triple for each severity name.
#[derive(Debug, Clone, Copy)]
pub struct Priority {
    pub emerg: [u8; 3],
    pub alert: [u8; 3],
    pub err: [u8; 3],
    pub warn: [u8; 3],
    pub notice: [u8; 3],
    pub info: [u8; 3],
    pub debug: [u8; 3],
    pub unknown: [u8; 3],
}

/// General options.
#[derive(Debug)]
pub struct Options {
    pub description: bool,
    pub yank: String,
    pub initial_priority: u8,
    pub debug_level: String,
    pub command_format: String,
}

/// The whole configuration.
#[derive(Debug)]
pub struct Config {
    pub palette: Palette,
    pub priority: Priority,
    pub options: Options,
}

impl Clone for Options {
    fn clone(&self) -> (r: Self)
        ensures
            r == *self,
    {
        Options {
            description: self.description,
            yank: self.yank.clone(),
            initial_priority: self.initial_priority,
            debug_level: self.debug_level.clone(),
            command_format: self.command_format.clone(),
        }
    }
}

impl Clone for Config {
    fn clone(&self) -> (r: Self)
        ensures
            r == *self,
    {
        Config { palette: self.palette, priority: self.priority, options: self.options.clone() }
    }
}

/// A colour to draw with: an RGB triple, or the terminal's white.
#[derive(Debug, Clone, Copy, PartialEq, Eq, Structural)]
pub enum Color {
    Rgb(u8, u8, u8),
    White,
}

/// How much diagnostic output to write.
#[derive(Debug, Clone, Copy, PartialEq, Eq, Structural)]
pub enum DebugLevel {
    Off,
    Error,
    Warn,
    Info,
    Debug,
    Trace,
}

/// The diagnostic level that a lower-case level name stands for.
pub open spec fn level_of(s: Seq<char>) -> DebugLevel {
    if s == "error"@ {
        DebugLevel::Error
    } else if s == "warn"@ {
        DebugLevel::Warn
    } else if s == "info"@ {
        DebugLevel::Info
    } else if s == "debug"@ {
        DebugLevel::Debug
    } else if s == "trace"@ {
        DebugLevel::Trace
    } else {
        DebugLevel::Off
    }
}

pub open spec fn rgb(c: [u8; 3]) -> Color {
    Color::Rgb(c@[0], c@[1], c@[2])
}

/// The palette entry that a colour name selects; white for other names.
pub open spec fn palette_color(p: Palette, name: Seq<char>) -> Color {
    if name == "red"@ {
        rgb(p.red)
    } else if name == "black"@ {
        rgb(p.black)
    } else if name == "blue"@ {
        rgb(p.blue)
    } else if name == "white"@ {
        rgb(p.white)
    } else if name == "gray"@ {
        rgb(p.gray)
    } else if name == "green"@ {
        rgb(p.green)
    } else {
        Color::White
    }
}

/// The colour that a severity name selects; white for other names.
pub open spec fn priority_color(p: Priority, level: Seq<char>) -> Color {
    if level == "emerg"@ {
        rgb(p.emerg)
    } else if level == "alert"@ {
        rgb(p.alert)
    } else if level == "err"@ {
        rgb(p.err)
    } else if level == "warn"@ {
        rgb(p.warn)
    } else if level == "notice"@ {
        rgb(p.notice)
    } else if level == "info"@ {
        rgb(p.info)
    } else if level == "debug"@ {
        rgb(p.debug)
    } else if level == "unknown"@ {
        rgb(p.unknown)
    } else {
        Color::White
    }
}

fn to_rgb(c: &[u8; 3]) -> (r: Color)
    ensures
        r == rgb(*c),
{
    Color::Rgb(c[0], c[1], c[2])
}

/// The diagnostic level named by an already lower-cased text.
pub fn level_from_lowered(level: &str) -> (r: DebugLevel)
    ensures
        r == level_of(level@),
{
    if same_text(level, "error") {
        DebugLevel::Error
    } else if same_text(level, "warn") {
        DebugLevel::Warn
    } else if same_text(level, "info") {
        DebugLevel::Info
    } else if same_text(level, "debug") {
        DebugLevel::Debug
    } else if same_text(level, "trace") {
        DebugLevel::Trace
    } else {
        DebugLevel::Off
    }
}

impl Options {
    /// The diagnostic level that `debug_level` names, in any letter case.
    pub fn to_level_filter(&self) -> (r: DebugLevel)
        ensures
            r == level_of(lower_of(self.debug_level@)),
    {
        let lowered = lowercase(self.debug_level.as_str());
        level_from_lowered(lowered.as_str())
    }
}

impl Config {
    pub fn get_palette_color(&self, color_name: &str) -> (r: Color)
        ensures
            r == palette_color(self.palette, color_name@),
    {
        if same_text(color_name, "red") {
            to_rgb(&self.palette.red)
        } else if same_text(color_name, "black") {
            to_rgb(&self.palette.black)
        } else if same_text(color_name, "blue") {
            to_rgb(&self.palette.blue)
        } else if same_text(color_name, "white") {
            to_rgb(&self.palette.white)
        } else if same_text(color_name, "gray") {
            to_rgb(&self.palette.gray)
        } else if same_text(color_name, "green") {
            to_rgb(&self.palette.green)
        } else {
            Color::White
        }
    }

    pub fn get_priority_color(&self, level: &str) -> (r: Color)
        ensures
            r == priority_color(self.priority, level@),
    {
        if same_text(level, "emerg") {
            to_rgb(&self.priority.emerg)
        } else if same_text(level, "alert") {
            to_rgb(&self.priority.alert)
        } else if same_text(level, "err") {
            to_rgb(&self.priority.err)
        } else if same_text(level, "warn") {
            to_rgb(&self.priority.warn)
        } else if same_text(level, "notice") {
            to_rgb(&self.priority.notice)
        } else if same_text(level, "info") {
            to_rgb(&self.priority.info)
        } else if same_text(level, "debug") {
            to_rgb(&self.priority.debug)
        } else if same_text(level, "unknown") {
            to_rgb(&self.priority.unknown)
        } else {
            Color::White
        }
    }
}

} // verus!
