//! Names and colour names for severities and unit states, and padding.
use vstd::prelude::*;
use crate::system::{Active, Load, Preset, State, Sub};

verus! {

/// The syslog name of a severity.
pub open spec fn priority_name(p: u8) -> Seq<char> {
    if p == 1 {
        "emerg"@
    } else if p == 2 {
        "alert"@
    } else if p == 3 {
        "err"@
    } else if p == 4 {
        "warn"@
    } else if p == 5 {
        "notice"@
    } else if p == 6 {
        "info"@
    } else if p == 7 {
        "debug"@
    } else {
        "unknown"@
    }
}

pub fn map_to_priority_str(priority: &u8) -> (r: &'static str)
    ensures
        r@ == priority_name(*priority),
{
    match *priority {
        1 => "emerg",
        2 => "alert",
        3 => "err",
        4 => "warn",
        5 => "notice",
        6 => "info",
        7 => "debug",
        _ => "unknown",
    }
}

pub open spec fn state_color(state: State) -> Seq<char> {
    match state {
        State::Enabled | State::EnabledRuntime | State::Static | State::Generated | State::Alias => "green"@,
        State::Indirect | State::Transient | State::Disabled => "blue"@,
        State::Masked => "red"@,
        State::Unknown => "white"@,
    }
}

pub fn get_state_color_str(state: &State) -> (r: &'static str)
    ensures
        r@ == state_color(*state),
{
    match state {
        State::Enabled | State::EnabledRuntime | State::Static | State::Generated | State::Alias => "green",
        State::Indirect | State::Transient | State::Disabled => "blue",
        State::Masked => "red",
        State::Unknown => "white",
    }
}

pub open spec fn load_color(load: Load) -> Seq<char> {
    match load {
        Load::Loaded => "green"@,
        Load::NotFound => "red"@,
        Load::Unknown => "white"@,
    }
}

pub fn get_load_color_str(load: &Load) -> (r: &'static str)
    ensures
        r@ == load_color(*load),
{
    match load {
        Load::Loaded => "green",
        Load::NotFound => "red",
        Load::Unknown => "white",
    }
}

pub open spec fn active_color(active: Active) -> Seq<char> {
    match active {
        Active::Active => "green"@,
        Active::InActive => "blue"@,
        Active::Unknown => "white"@,
    }
}

pub fn get_active_color_str(active: &Active) -> (r: &'static str)
    ensures
        r@ == active_color(*active),
{
    match active {
        Active::Active => "green",
        Active::InActive => "blue",
        Active::Unknown => "white",
    }
}

pub open spec fn sub_color(sub: Sub) -> Seq<char> {
    match sub {
        Sub::Running | Sub::Activating => "green"@,
        Sub::Dead | Sub::Waiting | Sub::Inactive | Sub::Deactivating | Sub::Reloading => "blue"@,
        Sub::Failed => "red"@,
        Sub::Exited | Sub::Unknown => "white"@,
    }
}

pub fn get_sub_color_str(sub: &Sub) -> (r: &'static str)
    ensures
        r@ == sub_color(*sub),
{
    match sub {
        Sub::Running | Sub::Activating => "green",
        Sub::Dead | Sub::Waiting | Sub::Inactive | Sub::Deactivating | Sub::Reloading => "blue",
        Sub::Failed => "red",
        Sub::Exited | Sub::Unknown => "white",
    }
}

pub open spec fn preset_color(preset: Preset) -> Seq<char> {
    match preset {
        Preset::Enabled => "green"@,
        _ => "white"@,
    }
}

pub fn get_preset_color_str(preset: &Preset) -> (r: &'static str)
    ensures
        r@ == preset_color(*preset),
{
    match preset {
        Preset::Enabled => "green",
        _ => "white",
    }
}

/// `s` followed by spaces up to `width` characters.
pub open spec fn padded(s: Seq<char>, width: nat) -> Seq<char> {
    if s.len() >= width {
        s
    } else {
        s + Seq::new((width - s.len()) as nat, |i: int| ' ')
    }
}

/// `s` left-aligned in a field of `width` characters.
pub fn pad_text(s: &str, width: usize) -> (r: String)
    ensures
        r@ == padded(s@, width as nat),
{
    let mut out = String::from_str(s);
    let n = s.unicode_len();
    let mut k = n;
    while k < width
        invariant
            n == s@.len(),
            n >= width ==> k == n,
            k >= n,
            k <= width || n >= width,
            out@ == s@ + Seq::new((k - n) as nat, |i: int| ' '),
        decreases width - k,
    {
        out.push(' ');
        assert(out@ =~= s@ + Seq::new((k + 1 - n) as nat, |i: int| ' '));
        k = k + 1;
    }
    proof {
        if n >= width {
            assert(out@ =~= s@);
        }
    }
    out
}

/// Left-alignment of a text in a fixed-width column.
pub trait PadStr {
    /// The characters of the text.
    spec fn text(&self) -> Seq<char>;

    fn pad_with(&self, width: usize) -> (r: String)
        ensures
            r@ == padded(self.text(), width as nat),
    ;
}

impl PadStr for str {
    open spec fn text(&self) -> Seq<char> {
        self@
    }

    fn pad_with(&self, width: usize) -> (r: String) {
        pad_text(self, width)
    }
}

} // verus!
