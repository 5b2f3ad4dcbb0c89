//! The upload of a program: the file that describes it, its base image and
//! its incremental image, in that order.

use vstd::prelude::*;
use crate::commands::file::{LinkedFile, LinkedFileView, UploadFile, UploadFileView, HOT_START};
use crate::device::file::COLD_START;
use crate::errors::DeviceError;
use crate::string::FixedLengthString;
use crate::v5::meta::FileExitAction;
use crate::wire::{append, copy_range};

verus! {

/// The images of a program.
#[derive(Clone, Debug, PartialEq, Eq)]
pub enum ProgramData {
    Hot(Vec<u8>),
    Cold(Vec<u8>),
    Both { hot: Vec<u8>, cold: Vec<u8> },
}

impl ProgramData {
    /// The base image, where there is one.
    pub open spec fn spec_cold(self) -> Option<Seq<u8>> {
        match self {
            ProgramData::Hot(_) => None,
            ProgramData::Cold(cold) => Some(cold@),
            ProgramData::Both { hot, cold } => Some(cold@),
        }
    }

    /// The incremental image, where there is one.
    pub open spec fn spec_hot(self) -> Option<Seq<u8>> {
        match self {
            ProgramData::Hot(hot) => Some(hot@),
            ProgramData::Cold(_) => None,
            ProgramData::Both { hot, cold } => Some(hot@),
        }
    }
}

/// What the description of a program says of the program.
#[derive(Clone, Debug, PartialEq, Eq)]
pub struct Program {
    pub name: String,
    pub slot: u8,
    pub icon: String,
    pub iconalt: String,
    pub description: String,
}

/// What the description of a program says of the project it is built from.
#[derive(Clone, Debug, PartialEq, Eq)]
pub struct Project {
    pub ide: String,
}

/// The description of a program, section by section.
#[derive(Clone, Debug, PartialEq, Eq)]
pub struct ProgramIniConfig {
    pub project: Project,
    pub program: Program,
}

/// A program to upload.
#[derive(Clone, Debug, PartialEq, Eq)]
pub struct UploadProgram {
    pub name: String,
    pub description: String,
    pub icon: String,
    pub program_type: String,
    /// 0-indexed slot
    pub slot: u8,
    pub data: ProgramData,
    pub after_upload: FileExitAction,
}

/// The decimal digits of `n`, as ASCII.
pub open spec fn spec_decimal(n: nat) -> Seq<u8>
    decreases n,
{
    if n < 10 {
        seq![(0x30 + n) as u8]
    } else {
        spec_decimal(n / 10).push((0x30 + n % 10) as u8)
    }
}

/// `slot`, the text.
pub open spec fn spec_slot_word() -> Seq<u8> {
    seq![0x73u8, 0x6Cu8, 0x6Fu8, 0x74u8]
}

/// `.ini`, the text.
pub open spec fn spec_ini_suffix() -> Seq<u8> {
    seq![0x2Eu8, 0x69u8, 0x6Eu8, 0x69u8]
}

/// `.bin`, the text.
pub open spec fn spec_bin_suffix() -> Seq<u8> {
    seq![0x2Eu8, 0x62u8, 0x69u8, 0x6Eu8]
}

/// `_lib.bin`, the text.
pub open spec fn spec_lib_suffix() -> Seq<u8> {
    seq![0x5Fu8, 0x6Cu8, 0x69u8, 0x62u8, 0x2Eu8, 0x62u8, 0x69u8, 0x6Eu8]
}

/// `ini`, the text.
pub open spec fn spec_ini_type() -> Seq<u8> {
    seq![0x69u8, 0x6Eu8, 0x69u8]
}

/// `bin`, the text.
pub open spec fn spec_bin_type() -> Seq<u8> {
    seq![0x62u8, 0x69u8, 0x6Eu8]
}

/// The name that the files of the program in `slot` start with: `slot` and
/// the number of the slot, counted from one.
pub open spec fn spec_base_name(slot: u8) -> Seq<u8> {
    spec_slot_word() + spec_decimal((slot + 1) as nat)
}

/// The upload of the description.
pub open spec fn spec_ini_session(slot: u8, ini: Seq<u8>) -> UploadFileView {
    UploadFileView {
        filename: spec_base_name(slot) + spec_ini_suffix(),
        filetype: spec_ini_type(),
        vendor: None,
        data: ini,
        target: None,
        load_addr: COLD_START,
        linked_file: None,
        after_upload: FileExitAction::DoNothing,
    }
}

/// The upload of the base image. The device is asked to act after it only
/// where no incremental image follows.
pub open spec fn spec_cold_session(
    slot: u8,
    cold: Seq<u8>,
    hot_follows: bool,
    after_upload: FileExitAction,
) -> UploadFileView {
    UploadFileView {
        filename: spec_base_name(slot) + spec_bin_suffix(),
        filetype: spec_bin_type(),
        vendor: None,
        data: cold,
        target: None,
        load_addr: COLD_START,
        linked_file: None,
        after_upload: if hot_follows {
            FileExitAction::DoNothing
        } else {
            after_upload
        },
    }
}

/// The upload of the incremental image, which is linked to the library of
/// the base image.
pub open spec fn spec_hot_session(
    slot: u8,
    hot: Seq<u8>,
    after_upload: FileExitAction,
) -> UploadFileView {
    UploadFileView {
        filename: spec_base_name(slot) + spec_bin_suffix(),
        filetype: spec_bin_type(),
        vendor: None,
        data: hot,
        target: None,
        load_addr: HOT_START,
        linked_file: Some(
            LinkedFileView { filename: spec_base_name(slot) + spec_lib_suffix(), vendor: None },
        ),
        after_upload,
    }
}

/// The uploads that make up the upload of a program, in the order they are
/// made in: the description, the base image where there is one, the
/// incremental image where there is one.
pub open spec fn spec_program_sessions(
    slot: u8,
    cold: Option<Seq<u8>>,
    hot: Option<Seq<u8>>,
    after_upload: FileExitAction,
    ini: Seq<u8>,
) -> Seq<UploadFileView> {
    let first = seq![spec_ini_session(slot, ini)];
    let second = match cold {
        Some(c) => first.push(spec_cold_session(slot, c, hot is Some, after_upload)),
        None => first,
    };
    match hot {
        Some(h) => second.push(spec_hot_session(slot, h, after_upload)),
        None => second,
    }
}

fn decimal(n: u16) -> (r: Vec<u8>)
    requires
        n < 1000,
    ensures
        r@ == spec_decimal(n as nat),
        r@.len() <= 3,
{
    let mut out: Vec<u8> = Vec::new();
    if n >= 100 {
        out.push((0x30 + n / 100) as u8);
    }
    if n >= 10 {
        out.push((0x30 + (n / 10) % 10) as u8);
    }
    out.push((0x30 + n % 10) as u8);
    proof {
        reveal_with_fuel(spec_decimal, 3);
        assert(out@ =~= spec_decimal(n as nat));
    }
    out
}

fn base_name(slot: u8) -> (r: Vec<u8>)
    ensures
        r@ == spec_base_name(slot),
        r@.len() <= 7,
{
    let mut out: Vec<u8> = Vec::new();
    out.push(0x73);
    out.push(0x6C);
    out.push(0x6F);
    out.push(0x74);
    assert(out@ =~= spec_slot_word());
    let digits = decimal((slot as u16) + 1);
    append(&mut out, digits.as_slice());
    out
}

fn ini_suffix() -> (r: Vec<u8>)
    ensures
        r@ == spec_ini_suffix(),
{
    let mut out: Vec<u8> = Vec::new();
    out.push(0x2E);
    out.push(0x69);
    out.push(0x6E);
    out.push(0x69);
    assert(out@ =~= spec_ini_suffix());
    out
}

fn bin_suffix() -> (r: Vec<u8>)
    ensures
        r@ == spec_bin_suffix(),
{
    let mut out: Vec<u8> = Vec::new();
    out.push(0x2E);
    out.push(0x62);
    out.push(0x69);
    out.push(0x6E);
    assert(out@ =~= spec_bin_suffix());
    out
}

fn lib_suffix() -> (r: Vec<u8>)
    ensures
        r@ == spec_lib_suffix(),
{
    let mut out: Vec<u8> = Vec::new();
    out.push(0x5F);
    out.push(0x6C);
    out.push(0x69);
    out.push(0x62);
    out.push(0x2E);
    out.push(0x62);
    out.push(0x69);
    out.push(0x6E);
    assert(out@ =~= spec_lib_suffix());
    out
}

fn file_type(ini: bool) -> (r: FixedLengthString<3>)
    ensures
        r@ == if ini {
            spec_ini_type()
        } else {
            spec_bin_type()
        },
{
    let mut out: Vec<u8> = Vec::new();
    if ini {
        out.push(0x69);
        out.push(0x6E);
        out.push(0x69);
        assert(out@ =~= spec_ini_type());
    } else {
        out.push(0x62);
        out.push(0x69);
        out.push(0x6E);
        assert(out@ =~= spec_bin_type());
    }
    FixedLengthString::<3>::from_short(out)
}

fn file_name(slot: u8, suffix: Vec<u8>) -> (r: FixedLengthString<23>)
    requires
        suffix@.len() <= 8,
    ensures
        r@ == spec_base_name(slot) + suffix@,
{
    let mut out = base_name(slot);
    append(&mut out, suffix.as_slice());
    FixedLengthString::<23>::from_short(out)
}

impl UploadProgram {
    /// The description of the program, to be written out as the file that
    /// goes first.
    pub fn ini_config(&self) -> (r: ProgramIniConfig)
        ensures
            r.project.ide@ == self.program_type@,
            r.program.name@ == self.name@,
            r.program.slot == self.slot,
            r.program.icon@ == self.icon@,
            r.program.iconalt@ == Seq::<char>::empty(),
            r.program.description@ == self.description@,
    {
        ProgramIniConfig {
            program: Program {
                description: self.description.clone(),
                icon: self.icon.clone(),
                iconalt: String::new(),
                slot: self.slot,
                name: self.name.clone(),
            },
            project: Project { ide: self.program_type.clone() },
        }
    }

    /// The uploads that make up the upload of the program, in the order
    /// they are to be made in. Each must succeed before the next is begun.
    /// `ini` holds the description as it is written to the device.
    pub fn execute(&self, ini: Vec<u8>) -> (r: Vec<UploadFile>)
        ensures
            r@.len() == spec_program_sessions(
                self.slot,
                self.data.spec_cold(),
                self.data.spec_hot(),
                self.after_upload,
                ini@,
            ).len(),
            forall|i: int|
                0 <= i < r@.len() ==> (#[trigger] r@[i])@ == spec_program_sessions(
                    self.slot,
                    self.data.spec_cold(),
                    self.data.spec_hot(),
                    self.after_upload,
                    ini@,
                )[i],
    {
        let mut sessions: Vec<UploadFile> = Vec::new();
        let ghost plan = spec_program_sessions(
            self.slot,
            self.data.spec_cold(),
            self.data.spec_hot(),
            self.after_upload,
            ini@,
        );
        let filename = file_name(self.slot, ini_suffix());
        let filetype = file_type(true);
        sessions.push(
            UploadFile {
                filename,
                filetype,
                vendor: None,
                data: ini,
                target: None,
                load_addr: COLD_START,
                linked_file: None,
                after_upload: FileExitAction::DoNothing,
            },
        );
        let (cold, hot): (Option<&Vec<u8>>, Option<&Vec<u8>>) = match &self.data {
            ProgramData::Cold(cold) => (Some(cold), None),
            ProgramData::Hot(hot) => (None, Some(hot)),
            ProgramData::Both { hot, cold } => (Some(cold), Some(hot)),
        };
        if let Some(cold) = cold {
            let after_upload = if hot.is_some() {
                FileExitAction::DoNothing
            } else {
                self.after_upload
            };
            let filename = file_name(self.slot, bin_suffix());
            let filetype = file_type(false);
            let data = copy_range(cold.as_slice(), 0, cold.len());
            assert(data@ =~= cold@);
            sessions.push(
                UploadFile {
                    filename,
                    filetype,
                    vendor: None,
                    data,
                    target: None,
                    load_addr: COLD_START,
                    linked_file: None,
                    after_upload,
                },
            );
        }
        if let Some(hot) = hot {
            let linked_name = file_name(self.slot, lib_suffix());
            let filename = file_name(self.slot, bin_suffix());
            let filetype = file_type(false);
            let data = copy_range(hot.as_slice(), 0, hot.len());
            assert(data@ =~= hot@);
            sessions.push(
                UploadFile {
                    filename,
                    filetype,
                    vendor: None,
                    data,
                    target: None,
                    load_addr: HOT_START,
                    linked_file: Some(LinkedFile { filename: linked_name, vendor: None }),
                    after_upload: self.after_upload,
                },
            );
        }
        assert(sessions@.len() == plan.len());
        assert forall|i: int| 0 <= i < sessions@.len() implies (#[trigger] sessions@[i])@
            == plan[i] by {}
        sessions
    }
}

/// What the upload of a program does next.
#[derive(Clone, Copy, Debug, PartialEq, Eq, Structural)]
pub enum ProgramAction {
    /// Make the upload at this place in the list.
    Upload(usize),
    /// Every upload has succeeded.
    Done,
    /// An upload has failed. No further upload is begun.
    Abort(DeviceError),
}

/// Decides what follows the uploads made so far: `done` of `total` have
/// succeeded, and `failure` is the error of the one that has failed, if
/// one has. A failure ends the upload of the program at once. Without one
/// the uploads are made in their order until none is left.
pub fn next_session(done: usize, total: usize, failure: Option<DeviceError>) -> (r: ProgramAction)
    ensures
        r == match failure {
            Some(e) => ProgramAction::Abort(e),
            None => if done < total {
                ProgramAction::Upload(done)
            } else {
                ProgramAction::Done
            },
        },
{
    match failure {
        Some(e) => ProgramAction::Abort(e),
        None => {
            if done < total {
                ProgramAction::Upload(done)
            } else {
                ProgramAction::Done
            }
        },
    }
}

/// A program is uploaded in two or three sessions. The description goes
/// first, to the address of the base image, and asks for nothing after it.
/// An incremental image goes last, to its own address, linked to the
/// library, and is the only session that asks for the action after the
/// upload when both images are there.
pub proof fn lemma_program_sessions(
    slot: u8,
    cold: Option<Seq<u8>>,
    hot: Option<Seq<u8>>,
    after_upload: FileExitAction,
    ini: Seq<u8>,
)
    requires
        cold is Some || hot is Some,
    ensures
        ({
            let plan = spec_program_sessions(slot, cold, hot, after_upload, ini);
            &&& plan.len() == if cold is Some && hot is Some {
                3nat
            } else {
                2nat
            }
            &&& plan[0] == spec_ini_session(slot, ini)
            &&& plan[0].after_upload == FileExitAction::DoNothing
            &&& plan.last().after_upload == after_upload
            &&& cold is Some && hot is Some ==> plan[1].after_upload == FileExitAction::DoNothing
                && plan[1].load_addr == COLD_START
            &&& hot is Some ==> plan.last().load_addr == HOT_START
                && plan.last().linked_file is Some
        }),
{
}

} // verus!
