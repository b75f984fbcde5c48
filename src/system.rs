//! Service units and unit files: their states, and the parsing of the
//! `systemctl list-units` / `list-unit-files` listings.
use vstd::prelude::*;
use crate::adapter::{body_lines, somes, QueryOutput};
use crate::error::{CatalogQuery, RounalError};
use crate::text::{
    ends_with, has_suffix, join, join_words, same_text, split_lines, split_words, views, words,
};

verus! {

/// Enablement state of a unit file.
#[derive(Debug, Clone, Copy, PartialEq, Eq, Structural)]
pub enum State {
    Enabled,
    Disabled,
    Static,
    Masked,
    Alias,
    Indirect,
    Generated,
    EnabledRuntime,
    Transient,
    Unknown,
}

pub open spec fn state_of(s: Seq<char>) -> State {
    if s == "enabled"@ {
        State::Enabled
    } else if s == "disabled"@ {
        State::Disabled
    } else if s == "static"@ {
        State::Static
    } else if s == "masked"@ {
        State::Masked
    } else if s == "alias"@ {
        State::Alias
    } else if s == "transient"@ {
        State::Transient
    } else if s == "indirect"@ {
        State::Indirect
    } else if s == "generated"@ {
        State::Generated
    } else if s == "enabled-runtime"@ {
        State::EnabledRuntime
    } else {
        State::Unknown
    }
}

impl State {
    pub fn get_state(state_as_str: &str) -> (r: Self)
        ensures
            r == state_of(state_as_str@),
    {
        if same_text(state_as_str, "enabled") {
            State::Enabled
        } else if same_text(state_as_str, "disabled") {
            State::Disabled
        } else if same_text(state_as_str, "static") {
            State::Static
        } else if same_text(state_as_str, "masked") {
            State::Masked
        } else if same_text(state_as_str, "alias") {
            State::Alias
        } else if same_text(state_as_str, "transient") {
            State::Transient
        } else if same_text(state_as_str, "indirect") {
            State::Indirect
        } else if same_text(state_as_str, "generated") {
            State::Generated
        } else if same_text(state_as_str, "enabled-runtime") {
            State::EnabledRuntime
        } else {
            State::Unknown
        }
    }
}

/// Vendor preset of a unit file.
#[derive(Debug, Clone, Copy, PartialEq, Eq, Structural)]
pub enum Preset {
    Enabled,
    Disabled,
    Empty,
    Unknown,
}

pub open spec fn preset_of(s: Seq<char>) -> Preset {
    if s == "enabled"@ {
        Preset::Enabled
    } else if s == "disabled"@ {
        Preset::Disabled
    } else if s == "-"@ {
        Preset::Empty
    } else {
        Preset::Unknown
    }
}

impl Preset {
    pub fn get_preset_state(state_as_str: &str) -> (r: Self)
        ensures
            r == preset_of(state_as_str@),
    {
        if same_text(state_as_str, "enabled") {
            Preset::Enabled
        } else if same_text(state_as_str, "disabled") {
            Preset::Disabled
        } else if same_text(state_as_str, "-") {
            Preset::Empty
        } else {
            Preset::Unknown
        }
    }
}

/// Whether the unit's definition was loaded.
#[derive(Debug, Clone, Copy, PartialEq, Eq, Structural)]
pub enum Load {
    Loaded,
    NotFound,
    Unknown,
}

pub open spec fn load_of(s: Seq<char>) -> Load {
    if s == "loaded"@ {
        Load::Loaded
    } else if s == "not-found"@ {
        Load::NotFound
    } else {
        Load::Unknown
    }
}

impl Load {
    pub fn get_load_state(state_as_str: &str) -> (r: Self)
        ensures
            r == load_of(state_as_str@),
    {
        if same_text(state_as_str, "loaded") {
            Load::Loaded
        } else if same_text(state_as_str, "not-found") {
            Load::NotFound
        } else {
            Load::Unknown
        }
    }
}

/// High-level activation state of a unit.
#[derive(Debug, Clone, Copy, PartialEq, Eq, Structural)]
pub enum Active {
    Active,
    InActive,
    Unknown,
}

pub open spec fn active_of(s: Seq<char>) -> Active {
    if s == "active"@ {
        Active::Active
    } else if s == "inactive"@ {
        Active::InActive
    } else {
        Active::Unknown
    }
}

impl Active {
    pub fn get_active_state(state_as_str: &str) -> (r: Self)
        ensures
            r == active_of(state_as_str@),
    {
        if same_text(state_as_str, "active") {
            Active::Active
        } else if same_text(state_as_str, "inactive") {
            Active::InActive
        } else {
            Active::Unknown
        }
    }
}

/// Detailed activation state of a unit.
#[derive(Debug, Clone, Copy, PartialEq, Eq, Structural)]
pub enum Sub {
    Running,
    Exited,
    Dead,
    Waiting,
    Inactive,
    Failed,
    Activating,
    Deactivating,
    Reloading,
    Unknown,
}

pub open spec fn sub_of(s: Seq<char>) -> Sub {
    if s == "running"@ {
        Sub::Running
    } else if s == "exited"@ {
        Sub::Exited
    } else if s == "dead"@ {
        Sub::Dead
    } else if s == "waiting"@ {
        Sub::Waiting
    } else if s == "inactive"@ {
        Sub::Inactive
    } else if s == "failed"@ {
        Sub::Failed
    } else if s == "activating"@ {
        Sub::Activating
    } else if s == "deactivating"@ {
        Sub::Deactivating
    } else if s == "reloading"@ {
        Sub::Reloading
    } else {
        Sub::Unknown
    }
}

impl Sub {
    pub fn get_sub_state(state_as_str: &str) -> (r: Self)
        ensures
            r == sub_of(state_as_str@),
    {
        if same_text(state_as_str, "running") {
            Sub::Running
        } else if same_text(state_as_str, "exited") {
            Sub::Exited
        } else if same_text(state_as_str, "dead") {
            Sub::Dead
        } else if same_text(state_as_str, "waiting") {
            Sub::Waiting
        } else if same_text(state_as_str, "inactive") {
            Sub::Inactive
        } else if same_text(state_as_str, "failed") {
            Sub::Failed
        } else if same_text(state_as_str, "activating") {
            Sub::Activating
        } else if same_text(state_as_str, "deactivating") {
            Sub::Deactivating
        } else if same_text(state_as_str, "reloading") {
            Sub::Reloading
        } else {
            Sub::Unknown
        }
    }
}

/// One row of the unit listing.
#[derive(Debug)]
pub struct ServiceUnits {
    pub name: String,
    pub load: Load,
    pub active: Active,
    pub sub: Sub,
    pub description: String,
}

/// One row of the unit-file listing.
#[derive(Debug)]
pub struct ServiceUnitFiles {
    pub name: String,
    pub state: State,
    pub preset: Preset,
}

/// A unit row as plain values.
pub struct UnitRecord {
    pub name: Seq<char>,
    pub load: Load,
    pub active: Active,
    pub sub: Sub,
    pub description: Seq<char>,
}

/// A unit-file row as plain values.
pub struct UnitFileRecord {
    pub name: Seq<char>,
    pub state: State,
    pub preset: Preset,
}

impl View for ServiceUnits {
    type V = UnitRecord;

    open spec fn view(&self) -> UnitRecord {
        UnitRecord {
            name: self.name@,
            load: self.load,
            active: self.active,
            sub: self.sub,
            description: self.description@,
        }
    }
}

impl View for ServiceUnitFiles {
    type V = UnitFileRecord;

    open spec fn view(&self) -> UnitFileRecord {
        UnitFileRecord { name: self.name@, state: self.state, preset: self.preset }
    }
}

impl Clone for ServiceUnits {
    fn clone(&self) -> (r: Self)
        ensures
            r == *self,
    {
        ServiceUnits {
            name: self.name.clone(),
            load: self.load,
            active: self.active,
            sub: self.sub,
            description: self.description.clone(),
        }
    }
}

impl Clone for ServiceUnitFiles {
    fn clone(&self) -> (r: Self)
        ensures
            r == *self,
    {
        ServiceUnitFiles { name: self.name.clone(), state: self.state, preset: self.preset }
    }
}

/// The mark that `systemctl` puts before a flagged unit.
pub open spec fn flag_mark() -> char {
    '\u{25cf}'
}

/// The file-name suffix of a service unit.
pub open spec fn service_suffix() -> Seq<char> {
    ".service"@
}

/// Column offset of a unit row: one when the row starts with the flag mark.
pub open spec fn unit_offset(line: Seq<char>) -> int {
    if line.len() > 0 && line[0] == flag_mark() {
        1
    } else {
        0
    }
}

/// The unit that a listing row describes, if it describes one.
pub open spec fn unit_of(line: Seq<char>) -> Option<UnitRecord> {
    let ws = words(line);
    let k = unit_offset(line);
    if ws.len() < k + 4 || !has_suffix(ws[k], service_suffix()) {
        None
    } else {
        Some(
            UnitRecord {
                name: ws[k],
                load: load_of(ws[k + 1]),
                active: active_of(ws[k + 2]),
                sub: sub_of(ws[k + 3]),
                description: join(ws.subrange(k + 4, ws.len() as int)),
            },
        )
    }
}

/// The unit file that a listing row describes, if it describes one.
pub open spec fn unit_file_of(line: Seq<char>) -> Option<UnitFileRecord> {
    let ws = words(line);
    if ws.len() < 3 || !has_suffix(ws[0], service_suffix()) {
        None
    } else {
        Some(UnitFileRecord { name: ws[0], state: state_of(ws[1]), preset: preset_of(ws[2]) })
    }
}

pub open spec fn unit_records(v: Seq<ServiceUnits>) -> Seq<UnitRecord> {
    v.map_values(|u: ServiceUnits| u@)
}

pub open spec fn unit_file_records(v: Seq<ServiceUnitFiles>) -> Seq<UnitFileRecord> {
    v.map_values(|f: ServiceUnitFiles| f@)
}

/// The units that the rows of a unit listing describe, header skipped.
pub open spec fn units_of_listing(out: Seq<char>) -> Seq<UnitRecord> {
    somes(body_lines(out).map_values(|l: Seq<char>| unit_of(l)))
}

/// The unit files that the rows of a unit-file listing describe, header skipped.
pub open spec fn unit_files_of_listing(out: Seq<char>) -> Seq<UnitFileRecord> {
    somes(body_lines(out).map_values(|l: Seq<char>| unit_file_of(l)))
}

/// Parses one row of `systemctl list-units`; rows that are not service
/// units (headers, legends, other unit types) give `None`.
pub fn parse_service_units(service_line: &str) -> (r: Option<ServiceUnits>)
    ensures
        match r {
            Some(u) => unit_of(service_line@) == Some(u@),
            None => unit_of(service_line@) is None,
        },
{
    let idx: usize = if service_line.unicode_len() > 0 && service_line.get_char(0) == '\u{25cf}' {
        1
    } else {
        0
    };
    let parts = split_words(service_line);
    proof {
        assert(parts@.len() == words(service_line@).len());
        assert(idx == unit_offset(service_line@));
    }
    if parts.len() < 4 || parts.len() < idx + 4 {
        return None;
    }
    if !ends_with(parts[idx].as_str(), ".service") {
        return None;
    }
    let load = Load::get_load_state(parts[idx + 1].as_str());
    let active = Active::get_active_state(parts[idx + 2].as_str());
    let sub = Sub::get_sub_state(parts[idx + 3].as_str());
    let description = join_words(&parts, idx + 4, parts.len());
    let name = parts[idx].clone();
    proof {
        assert(views(parts@).subrange(idx + 4, parts@.len() as int) =~= words(service_line@).subrange(
            idx + 4,
            words(service_line@).len() as int,
        ));
    }
    Some(ServiceUnits { name, load, active, sub, description })
}

/// Parses one row of `systemctl list-unit-files`; rows that are not
/// service unit files give `None`.
pub fn parse_service_unit_files(service_line: &str) -> (r: Option<ServiceUnitFiles>)
    ensures
        match r {
            Some(f) => unit_file_of(service_line@) == Some(f@),
            None => unit_file_of(service_line@) is None,
        },
{
    let parts = split_words(service_line);
    proof {
        assert(parts@.len() == words(service_line@).len());
    }
    if parts.len() < 3 {
        return None;
    }
    if !ends_with(parts[0].as_str(), ".service") {
        return None;
    }
    let state = State::get_state(parts[1].as_str());
    let preset = Preset::get_preset_state(parts[2].as_str());
    let name = parts[0].clone();
    Some(ServiceUnitFiles { name, state, preset })
}

/// The service units of a `list-units` listing, its header line skipped.
pub fn units_from_listing(listing: &str) -> (r: Vec<ServiceUnits>)
    ensures
        unit_records(r@) == units_of_listing(listing@),
{
    let lines = split_lines(listing);
    let ghost body = body_lines(listing@).map_values(|l: Seq<char>| unit_of(l));
    let mut out: Vec<ServiceUnits> = Vec::new();
    let mut i: usize = 1;
    proof {
        assert(body.take(0) =~= Seq::<Option<UnitRecord>>::empty());
        assert(unit_records(out@) =~= somes(body.take(0)));
    }
    while i < lines.len()
        invariant
            views(lines@) == crate::text::lines_of(listing@),
            body == body_lines(listing@).map_values(|l: Seq<char>| unit_of(l)),
            1 <= i,
            i <= lines.len() || lines.len() == 0,
            lines.len() > 0 ==> body.len() == lines.len() - 1,
            lines.len() > 0 ==> unit_records(out@) == somes(body.take(i - 1)),
            lines.len() == 0 ==> out@.len() == 0,
        decreases lines.len() - i,
    {
        let parsed = parse_service_units(lines[i].as_str());
        let ghost prev = out@;
        assert(body[i - 1] == unit_of(lines@[i as int]@));
        assert(body.take(i as int).drop_last() =~= body.take(i - 1));
        match parsed {
            Some(u) => {
                out.push(u);
                assert(unit_records(out@) =~= unit_records(prev).push(out@.last()@));
            },
            None => {},
        }
        i = i + 1;
    }
    proof {
        if lines.len() > 0 {
            assert(body.take(body.len() as int) =~= body);
        } else {
            assert(body =~= Seq::<Option<UnitRecord>>::empty());
            assert(unit_records(out@) =~= Seq::<UnitRecord>::empty());
        }
    }
    out
}

/// The service unit files of a `list-unit-files` listing, its header line skipped.
pub fn unit_files_from_listing(listing: &str) -> (r: Vec<ServiceUnitFiles>)
    ensures
        unit_file_records(r@) == unit_files_of_listing(listing@),
{
    let lines = split_lines(listing);
    let ghost body = body_lines(listing@).map_values(|l: Seq<char>| unit_file_of(l));
    let mut out: Vec<ServiceUnitFiles> = Vec::new();
    let mut i: usize = 1;
    proof {
        assert(body.take(0) =~= Seq::<Option<UnitFileRecord>>::empty());
        assert(unit_file_records(out@) =~= somes(body.take(0)));
    }
    while i < lines.len()
        invariant
            views(lines@) == crate::text::lines_of(listing@),
            body == body_lines(listing@).map_values(|l: Seq<char>| unit_file_of(l)),
            1 <= i,
            i <= lines.len() || lines.len() == 0,
            lines.len() > 0 ==> body.len() == lines.len() - 1,
            lines.len() > 0 ==> unit_file_records(out@) == somes(body.take(i - 1)),
            lines.len() == 0 ==> out@.len() == 0,
        decreases lines.len() - i,
    {
        let parsed = parse_service_unit_files(lines[i].as_str());
        let ghost prev = out@;
        assert(body[i - 1] == unit_file_of(lines@[i as int]@));
        assert(body.take(i as int).drop_last() =~= body.take(i - 1));
        match parsed {
            Some(f) => {
                out.push(f);
                assert(unit_file_records(out@) =~= unit_file_records(prev).push(out@.last()@));
            },
            None => {},
        }
        i = i + 1;
    }
    proof {
        if lines.len() > 0 {
            assert(body.take(body.len() as int) =~= body);
        } else {
            assert(body =~= Seq::<Option<UnitFileRecord>>::empty());
            assert(unit_file_records(out@) =~= Seq::<UnitFileRecord>::empty());
        }
    }
    out
}

/// The units of a finished `list-units` query: its rows when it reported
/// success, else the failure of that listing with its error text.
pub fn units_from_output(out: &QueryOutput) -> (r: Result<Vec<ServiceUnits>, RounalError>)
    ensures
        match r {
            Ok(v) => out.success && unit_records(v@) == units_of_listing(out.stdout@),
            Err(e) => !out.success && e == RounalError::SystemCtlError(
                CatalogQuery::ListUnits,
                out.stderr,
            ),
        },
{
    if !out.success {
        return Err(RounalError::SystemCtlError(CatalogQuery::ListUnits, out.stderr.clone()));
    }
    Ok(units_from_listing(out.stdout.as_str()))
}

/// The unit files of a finished `list-unit-files` query: its rows when it
/// reported success, else the failure of that listing with its error text.
pub fn unit_files_from_output(out: &QueryOutput) -> (r: Result<Vec<ServiceUnitFiles>, RounalError>)
    ensures
        match r {
            Ok(v) => out.success && unit_file_records(v@) == unit_files_of_listing(out.stdout@),
            Err(e) => !out.success && e == RounalError::SystemCtlError(
                CatalogQuery::ListUnitFiles,
                out.stderr,
            ),
        },
{
    if !out.success {
        return Err(RounalError::SystemCtlError(CatalogQuery::ListUnitFiles, out.stderr.clone()));
    }
    Ok(unit_files_from_listing(out.stdout.as_str()))
}

/// The catalog from the two finished listing queries. It succeeds exactly
/// when both reported success; otherwise the error names the unit listing
/// if it failed, else the unit-file listing.
pub fn catalog_from_outputs(units: &QueryOutput, files: &QueryOutput) -> (r: Result<
    (Vec<ServiceUnits>, Vec<ServiceUnitFiles>),
    RounalError,
>)
    ensures
        match r {
            Ok((u, f)) => units.success && files.success && unit_records(u@) == units_of_listing(
                units.stdout@,
            ) && unit_file_records(f@) == unit_files_of_listing(files.stdout@),
            Err(e) => if !units.success {
                e == RounalError::SystemCtlError(CatalogQuery::ListUnits, units.stderr)
            } else {
                !files.success && e == RounalError::SystemCtlError(
                    CatalogQuery::ListUnitFiles,
                    files.stderr,
                )
            },
        },
{
    let u = match units_from_output(units) {
        Ok(u) => u,
        Err(e) => return Err(e),
    };
    let f = match unit_files_from_output(files) {
        Ok(f) => f,
        Err(e) => return Err(e),
    };
    Ok((u, f))
}

/// A unit row with too few columns after its offset, or whose name is not
/// a service, gives no unit.
pub proof fn lemma_unit_line_rejected(line: Seq<char>)
    requires
        words(line).len() < unit_offset(line) + 4 || !has_suffix(
            words(line)[unit_offset(line)],
            service_suffix(),
        ),
    ensures
        unit_of(line) is None,
{
}

/// A unit-file row with fewer than three columns, or whose name is not a
/// service, gives no unit file.
pub proof fn lemma_unit_file_line_rejected(line: Seq<char>)
    requires
        words(line).len() < 3 || !has_suffix(words(line)[0], service_suffix()),
    ensures
        unit_file_of(line) is None,
{
}

} // verus!
