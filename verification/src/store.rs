//! The parameter store: a handle over a snapshot of the `intel_pstate`
//! directory, with typed accessors for each parameter file and bulk
//! operations over all of them.

use vstd::prelude::*;

use crate::text::{bool_bytes, bool_to_bytes, dec_of, parse_u8_spec, parse_trimmed_u8, trim_spec, u8_to_dec};

verus! {

/// The parameter files of the `intel_pstate` directory.
#[derive(Clone, Copy, Debug, PartialEq, Eq, Structural)]
pub enum Field {
    HwpDynamicBoost,
    MaxPerfPct,
    MinPerfPct,
    NoTurbo,
}

/// Why reading a parameter failed.
#[derive(Clone, Copy, Debug, PartialEq, Eq, Structural)]
pub enum GetCause {
    /// The backing file does not exist.
    Missing,
    /// The backing file exists but cannot be read.
    Unreadable,
    /// The file's content does not parse as a value of the expected type.
    Parse,
}

/// Why writing a parameter failed.
#[derive(Clone, Copy, Debug, PartialEq, Eq, Structural)]
pub enum SetCause {
    /// The backing file cannot be opened for writing, or the write is
    /// rejected (commonly for want of privilege).
    Rejected,
}

/// Everything that can go wrong in this library.
#[derive(Clone, Copy, Debug, PartialEq, Eq, Structural)]
#[allow(inconsistent_fields)]
pub enum PStateError {
    /// Failed to read the named parameter.
    GetValue { src: Field, cause: GetCause },
    /// The `intel_pstate` directory was not found.
    NotFound,
    /// Failed to write the named parameter.
    SetValue { src: Field, cause: SetCause },
}

/// One parameter file of the directory, as plain values: its content (absent
/// when the file does not exist) and whether the calling process may read or
/// write it.
pub struct FileSlot {
    pub content: Option<Vec<u8>>,
    pub readable: bool,
    pub writable: bool,
}

/// Mathematical image of a [`FileSlot`].
pub struct FileSlotView {
    pub content: Option<Seq<u8>>,
    pub readable: bool,
    pub writable: bool,
}

impl View for FileSlot {
    type V = FileSlotView;

    open spec fn view(&self) -> FileSlotView {
        FileSlotView {
            content: match self.content {
                Some(c) => Some(c@),
                None => None,
            },
            readable: self.readable,
            writable: self.writable,
        }
    }
}

/// The four parameter files, one slot each.
pub struct SysFiles {
    pub hwp_dynamic_boost: FileSlot,
    pub max_perf_pct: FileSlot,
    pub min_perf_pct: FileSlot,
    pub no_turbo: FileSlot,
}

/// Mathematical image of [`SysFiles`].
pub struct SysFilesView {
    pub hwp_dynamic_boost: FileSlotView,
    pub max_perf_pct: FileSlotView,
    pub min_perf_pct: FileSlotView,
    pub no_turbo: FileSlotView,
}

impl View for SysFiles {
    type V = SysFilesView;

    open spec fn view(&self) -> SysFilesView {
        SysFilesView {
            hwp_dynamic_boost: self.hwp_dynamic_boost@,
            max_perf_pct: self.max_perf_pct@,
            min_perf_pct: self.min_perf_pct@,
            no_turbo: self.no_turbo@,
        }
    }
}

/// A snapshot of the `intel_pstate` directory: whether the directory itself
/// is present, and the state of its parameter files.
pub struct SysDir {
    pub present: bool,
    pub files: SysFiles,
}

/// What reading one slot as a small unsigned decimal yields.
pub open spec fn read_u8_spec(slot: FileSlotView) -> Result<u8, GetCause> {
    match slot.content {
        None => Err(GetCause::Missing),
        Some(c) => if !slot.readable {
            Err(GetCause::Unreadable)
        } else {
            match parse_u8_spec(trim_spec(c)) {
                Some(v) => Ok(v),
                None => Err(GetCause::Parse),
            }
        },
    }
}

/// The slot after its file was written with the given bytes: the content is
/// replaced wholesale, the access flags stay.
pub open spec fn with_content(slot: FileSlotView, bytes: Seq<u8>) -> FileSlotView {
    FileSlotView { content: Some(bytes), readable: slot.readable, writable: slot.writable }
}

/// The slot after an attempted write: replaced when writable, untouched when
/// the write is rejected.
pub open spec fn written(slot: FileSlotView, bytes: Seq<u8>) -> FileSlotView {
    if slot.writable {
        with_content(slot, bytes)
    } else {
        slot
    }
}

/// What the minimum-performance getter yields.
pub open spec fn min_perf_pct_spec(files: SysFilesView) -> Result<u8, PStateError> {
    match read_u8_spec(files.min_perf_pct) {
        Ok(v) => Ok(v),
        Err(c) => Err(PStateError::GetValue { src: Field::MinPerfPct, cause: c }),
    }
}

/// What the maximum-performance getter yields.
pub open spec fn max_perf_pct_spec(files: SysFilesView) -> Result<u8, PStateError> {
    match read_u8_spec(files.max_perf_pct) {
        Ok(v) => Ok(v),
        Err(c) => Err(PStateError::GetValue { src: Field::MaxPerfPct, cause: c }),
    }
}

/// What the `no_turbo` getter yields: any positive value counts as `true`.
pub open spec fn no_turbo_spec(files: SysFilesView) -> Result<bool, PStateError> {
    match read_u8_spec(files.no_turbo) {
        Ok(v) => Ok(v > 0),
        Err(c) => Err(PStateError::GetValue { src: Field::NoTurbo, cause: c }),
    }
}

/// What the capability-conditional boost getter yields: an absent file is no
/// value, not an error; a present file must hold exactly `1` to mean `true`.
pub open spec fn hwp_dynamic_boost_spec(files: SysFilesView) -> Result<Option<bool>, PStateError> {
    if files.hwp_dynamic_boost.content is None {
        Ok(None)
    } else {
        match read_u8_spec(files.hwp_dynamic_boost) {
            Ok(v) => Ok(Some(v == 1)),
            Err(c) => Err(PStateError::GetValue { src: Field::HwpDynamicBoost, cause: c }),
        }
    }
}

/// What the bulk getter yields: the four reads in order, stopping at the
/// first failure.
pub open spec fn values_spec(files: SysFilesView) -> Result<PStateValues, PStateError> {
    match min_perf_pct_spec(files) {
        Err(e) => Err(e),
        Ok(min) => match max_perf_pct_spec(files) {
            Err(e) => Err(e),
            Ok(max) => match no_turbo_spec(files) {
                Err(e) => Err(e),
                Ok(nt) => match hwp_dynamic_boost_spec(files) {
                    Err(e) => Err(e),
                    Ok(boost) => Ok(PStateValues {
                        hwp_dynamic_boost: boost,
                        min_perf_pct: min,
                        max_perf_pct: max,
                        no_turbo: nt,
                    }),
                },
            },
        },
    }
}

/// The files after the minimum-performance setter ran.
pub open spec fn set_min_perf_pct_files(files: SysFilesView, min: u8) -> SysFilesView {
    SysFilesView {
        min_perf_pct: written(files.min_perf_pct, dec_of(min as nat)),
        hwp_dynamic_boost: files.hwp_dynamic_boost,
        max_perf_pct: files.max_perf_pct,
        no_turbo: files.no_turbo,
    }
}

/// The files after the maximum-performance setter ran.
pub open spec fn set_max_perf_pct_files(files: SysFilesView, max: u8) -> SysFilesView {
    SysFilesView {
        max_perf_pct: written(files.max_perf_pct, dec_of(max as nat)),
        hwp_dynamic_boost: files.hwp_dynamic_boost,
        min_perf_pct: files.min_perf_pct,
        no_turbo: files.no_turbo,
    }
}

/// The files after the `no_turbo` setter ran: the single byte `1` disables
/// turbo, `0` enables it.
pub open spec fn set_no_turbo_files(files: SysFilesView, no_turbo: bool) -> SysFilesView {
    SysFilesView {
        no_turbo: written(files.no_turbo, bool_bytes(no_turbo)),
        hwp_dynamic_boost: files.hwp_dynamic_boost,
        min_perf_pct: files.min_perf_pct,
        max_perf_pct: files.max_perf_pct,
    }
}

/// The files after the boost setter ran.
pub open spec fn set_hwp_dynamic_boost_files(files: SysFilesView, boost: bool) -> SysFilesView {
    SysFilesView {
        hwp_dynamic_boost: written(files.hwp_dynamic_boost, bool_bytes(boost)),
        min_perf_pct: files.min_perf_pct,
        max_perf_pct: files.max_perf_pct,
        no_turbo: files.no_turbo,
    }
}

/// Whether a single attempted write succeeds, and the error it yields when
/// not.
pub open spec fn set_result(slot: FileSlotView, src: Field) -> Result<(), PStateError> {
    if slot.writable {
        Ok(())
    } else {
        Err(PStateError::SetValue { src, cause: SetCause::Rejected })
    }
}

/// The files after the bulk setter ran: a best-effort boost write when that
/// field is given, then the three required writes in order, stopping at the
/// first rejected one.
pub open spec fn set_values_files(files: SysFilesView, values: PStateValues) -> SysFilesView {
    let f1 = match values.hwp_dynamic_boost {
        Some(boost) => set_hwp_dynamic_boost_files(files, boost),
        None => files,
    };
    if !f1.min_perf_pct.writable {
        f1
    } else {
        let f2 = set_min_perf_pct_files(f1, values.min_perf_pct);
        if !f2.max_perf_pct.writable {
            f2
        } else {
            let f3 = set_max_perf_pct_files(f2, values.max_perf_pct);
            if !f3.no_turbo.writable {
                f3
            } else {
                set_no_turbo_files(f3, values.no_turbo)
            }
        }
    }
}

/// What the bulk setter yields: the first rejected required write decides;
/// the best-effort boost write never does. No write changes any access flag,
/// so the outcome is read off the starting state.
pub open spec fn set_values_result(files: SysFilesView, values: PStateValues) -> Result<(), PStateError> {
    if !files.min_perf_pct.writable {
        Err(PStateError::SetValue { src: Field::MinPerfPct, cause: SetCause::Rejected })
    } else if !files.max_perf_pct.writable {
        Err(PStateError::SetValue { src: Field::MaxPerfPct, cause: SetCause::Rejected })
    } else if !files.no_turbo.writable {
        Err(PStateError::SetValue { src: Field::NoTurbo, cause: SetCause::Rejected })
    } else {
        Ok(())
    }
}

/// A set of pstate values that was retrieved, or is to be set.
#[derive(Clone, Copy, Debug, PartialEq, Eq, Hash, Structural)]
pub struct PStateValues {
    pub hwp_dynamic_boost: Option<bool>,
    pub min_perf_pct: u8,
    pub max_perf_pct: u8,
    pub no_turbo: bool,
}

impl Default for PStateValues {
    /// No boost value, the full performance range, turbo enabled.
    fn default() -> (r: Self)
        ensures
            r == (PStateValues {
                hwp_dynamic_boost: None,
                min_perf_pct: 0,
                max_perf_pct: 100,
                no_turbo: false,
            }),
    {
        PStateValues { hwp_dynamic_boost: None, min_perf_pct: 0, max_perf_pct: 100, no_turbo: false }
    }
}

impl PStateValues {
    /// The same values with the boost field set.
    pub fn hwp_dynamic_boost(self, value: bool) -> (r: Self)
        ensures
            r == (PStateValues { hwp_dynamic_boost: Some(value), ..self }),
    {
        PStateValues { hwp_dynamic_boost: Some(value), ..self }
    }

    /// The same values with the minimum performance percent set.
    pub fn min_perf_pct(self, value: u8) -> (r: Self)
        ensures
            r == (PStateValues { min_perf_pct: value, ..self }),
    {
        PStateValues { min_perf_pct: value, ..self }
    }

    /// The same values with the maximum performance percent set.
    pub fn max_perf_pct(self, value: u8) -> (r: Self)
        ensures
            r == (PStateValues { max_perf_pct: value, ..self }),
    {
        PStateValues { max_perf_pct: value, ..self }
    }

    /// The same values with the turbo switch set.
    pub fn no_turbo(self, value: bool) -> (r: Self)
        ensures
            r == (PStateValues { no_turbo: value, ..self }),
    {
        PStateValues { no_turbo: value, ..self }
    }
}

/// Handle for fetching and modifying the Intel PState kernel parameters held
/// in a directory snapshot.
pub struct PState {
    files: SysFiles,
}

impl View for PState {
    type V = SysFilesView;

    closed spec fn view(&self) -> SysFilesView {
        self.files@
    }
}

impl PState {
    /// Attempt to obtain a handle over a directory snapshot. Yields
    /// `NotFound` exactly when the directory is not present.
    pub fn new(dir: SysDir) -> (r: Result<PState, PStateError>)
        ensures
            dir.present ==> (r matches Ok(p) && p@ == dir.files@),
            !dir.present ==> r == Err::<PState, PStateError>(PStateError::NotFound),
    {
        if dir.present {
            Ok(PState { files: dir.files })
        } else {
            Err(PStateError::NotFound)
        }
    }

    /// The current state of the parameter files, for flushing a snapshot back
    /// to the kernel or inspecting what was written.
    pub fn files(&self) -> (r: &SysFiles)
        ensures
            r@ == self@,
    {
        &self.files
    }

    /// Get the status of HWP dynamic boost, if it is available.
    pub fn hwp_dynamic_boost(&self) -> (r: Result<Option<bool>, PStateError>)
        ensures
            r == hwp_dynamic_boost_spec(self@),
    {
        if self.files.hwp_dynamic_boost.content.is_some() {
            match read_u8(&self.files.hwp_dynamic_boost) {
                Ok(v) => Ok(Some(v == 1)),
                Err(c) => Err(PStateError::GetValue { src: Field::HwpDynamicBoost, cause: c }),
            }
        } else {
            Ok(None)
        }
    }

    /// Set the HWP dynamic boost status.
    pub fn set_hwp_dynamic_boost(&mut self, boost: bool) -> (r: Result<(), PStateError>)
        ensures
            final(self)@ == set_hwp_dynamic_boost_files(old(self)@, boost),
            r == set_result(old(self)@.hwp_dynamic_boost, Field::HwpDynamicBoost),
    {
        let bytes = bool_to_bytes(boost);
        write_file(&mut self.files.hwp_dynamic_boost, bytes, Field::HwpDynamicBoost)
    }

    /// Get the minimum performance percent.
    pub fn min_perf_pct(&self) -> (r: Result<u8, PStateError>)
        ensures
            r == min_perf_pct_spec(self@),
    {
        match read_u8(&self.files.min_perf_pct) {
            Ok(v) => Ok(v),
            Err(c) => Err(PStateError::GetValue { src: Field::MinPerfPct, cause: c }),
        }
    }

    /// Set the minimum performance percent.
    pub fn set_min_perf_pct(&mut self, min: u8) -> (r: Result<(), PStateError>)
        ensures
            final(self)@ == set_min_perf_pct_files(old(self)@, min),
            r == set_result(old(self)@.min_perf_pct, Field::MinPerfPct),
    {
        let bytes = u8_to_dec(min);
        write_file(&mut self.files.min_perf_pct, bytes, Field::MinPerfPct)
    }

    /// Get the maximum performance percent.
    pub fn max_perf_pct(&self) -> (r: Result<u8, PStateError>)
        ensures
            r == max_perf_pct_spec(self@),
    {
        match read_u8(&self.files.max_perf_pct) {
            Ok(v) => Ok(v),
            Err(c) => Err(PStateError::GetValue { src: Field::MaxPerfPct, cause: c }),
        }
    }

    /// Set the maximum performance percent.
    pub fn set_max_perf_pct(&mut self, max: u8) -> (r: Result<(), PStateError>)
        ensures
            final(self)@ == set_max_perf_pct_files(old(self)@, max),
            r == set_result(old(self)@.max_perf_pct, Field::MaxPerfPct),
    {
        let bytes = u8_to_dec(max);
        write_file(&mut self.files.max_perf_pct, bytes, Field::MaxPerfPct)
    }

    /// If true, this signifies that turbo is disabled.
    pub fn no_turbo(&self) -> (r: Result<bool, PStateError>)
        ensures
            r == no_turbo_spec(self@),
    {
        match read_u8(&self.files.no_turbo) {
            Ok(v) => Ok(v > 0),
            Err(c) => Err(PStateError::GetValue { src: Field::NoTurbo, cause: c }),
        }
    }

    /// Set the no_turbo value; `true` will disable turbo.
    pub fn set_no_turbo(&mut self, no_turbo: bool) -> (r: Result<(), PStateError>)
        ensures
            final(self)@ == set_no_turbo_files(old(self)@, no_turbo),
            r == set_result(old(self)@.no_turbo, Field::NoTurbo),
    {
        let bytes = bool_to_bytes(no_turbo);
        write_file(&mut self.files.no_turbo, bytes, Field::NoTurbo)
    }

    /// Get current PState values: every parameter read in one go, stopping at
    /// the first failure.
    pub fn values(&self) -> (r: Result<PStateValues, PStateError>)
        ensures
            r == values_spec(self@),
    {
        let min = match self.min_perf_pct() {
            Ok(v) => v,
            Err(e) => return Err(e),
        };
        let max = match self.max_perf_pct() {
            Ok(v) => v,
            Err(e) => return Err(e),
        };
        let nt = match self.no_turbo() {
            Ok(v) => v,
            Err(e) => return Err(e),
        };
        let boost = match self.hwp_dynamic_boost() {
            Ok(v) => v,
            Err(e) => return Err(e),
        };
        Ok(PStateValues {
            hwp_dynamic_boost: boost,
            min_perf_pct: min,
            max_perf_pct: max,
            no_turbo: nt,
        })
    }

    /// Set all values in the given config: the boost write is best-effort,
    /// the three others stop at the first rejected write.
    pub fn set_values(&mut self, values: PStateValues) -> (r: Result<(), PStateError>)
        ensures
            final(self)@ == set_values_files(old(self)@, values),
            r == set_values_result(old(self)@, values),
    {
        if let Some(boost) = values.hwp_dynamic_boost {
            let _ = self.set_hwp_dynamic_boost(boost);
        }
        match self.set_min_perf_pct(values.min_perf_pct) {
            Ok(()) => {}
            Err(e) => return Err(e),
        }
        match self.set_max_perf_pct(values.max_perf_pct) {
            Ok(()) => {}
            Err(e) => return Err(e),
        }
        self.set_no_turbo(values.no_turbo)
    }
}

/// Law: after a successful write of the minimum performance percent, reading
/// the same field yields the value that was written.
pub proof fn lemma_min_perf_pct_roundtrip(files: SysFilesView, v: u8)
    requires
        files.min_perf_pct.writable,
        files.min_perf_pct.readable,
    ensures
        min_perf_pct_spec(set_min_perf_pct_files(files, v)) == Ok::<u8, PStateError>(v),
{
    crate::text::lemma_parse_dec_roundtrip(v);
}

/// Law: after a successful write of the maximum performance percent, reading
/// the same field yields the value that was written.
pub proof fn lemma_max_perf_pct_roundtrip(files: SysFilesView, v: u8)
    requires
        files.max_perf_pct.writable,
        files.max_perf_pct.readable,
    ensures
        max_perf_pct_spec(set_max_perf_pct_files(files, v)) == Ok::<u8, PStateError>(v),
{
    crate::text::lemma_parse_dec_roundtrip(v);
}

/// Law: after a successful write of the turbo switch, reading the same field
/// yields the value that was written.
pub proof fn lemma_no_turbo_roundtrip(files: SysFilesView, b: bool)
    requires
        files.no_turbo.writable,
        files.no_turbo.readable,
    ensures
        no_turbo_spec(set_no_turbo_files(files, b)) == Ok::<bool, PStateError>(b),
{
    crate::text::lemma_parse_bool_roundtrip(b);
}

/// Law: after a successful write of the boost switch, reading the same field
/// yields the value that was written.
pub proof fn lemma_hwp_dynamic_boost_roundtrip(files: SysFilesView, b: bool)
    requires
        files.hwp_dynamic_boost.writable,
        files.hwp_dynamic_boost.readable,
    ensures
        hwp_dynamic_boost_spec(set_hwp_dynamic_boost_files(files, b))
            == Ok::<Option<bool>, PStateError>(Some(b)),
{
    crate::text::lemma_parse_bool_roundtrip(b);
}

/// Read one slot as a small unsigned decimal.
fn read_u8(slot: &FileSlot) -> (r: Result<u8, GetCause>)
    ensures
        r == read_u8_spec(slot@),
{
    match &slot.content {
        None => Err(GetCause::Missing),
        Some(c) => if !slot.readable {
            Err(GetCause::Unreadable)
        } else {
            match parse_trimmed_u8(c) {
                Some(v) => Ok(v),
                None => Err(GetCause::Parse),
            }
        },
    }
}

/// Attempt to write one slot: replace the whole content when the slot is
/// writable, reject the write otherwise.
fn write_file(slot: &mut FileSlot, bytes: Vec<u8>, src: Field) -> (r: Result<(), PStateError>)
    ensures
        final(slot)@ == written(old(slot)@, bytes@),
        r == set_result(old(slot)@, src),
{
    if slot.writable {
        slot.content = Some(bytes);
        Ok(())
    } else {
        Err(PStateError::SetValue { src, cause: SetCause::Rejected })
    }
}

} // verus!
