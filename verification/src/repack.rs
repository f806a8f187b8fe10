//! Storing one instance, step by step: what to do next, given what was done.
#![allow(non_snake_case)]
use crate::dicom_data::{
    failure_at, is_optional, is_record_only, is_required, lemma_required_failure,
    optional_errors, projected, required_failure, Attribute, CommonElements,
    CommonElementsView, DicomObject, DicomTagAndError, DicomTagError, Tag,
};
use crate::helpers::{is_kept, lemma_sanitized_of_kept, sanitized};
use crate::log_write::{
    lemma_no_record_errors, lemma_records_read_other_tags, log_paths, log_paths_of,
    planned_errors, planned_writes, write_logs, writes_view, ExistingLogs, ExistingLogsView,
    LogPaths, LogPathsView, LogWrite, LogWriteView,
};
use crate::pack_path::{
    dashed, lemma_sanitized_dashed, resolved, root_segment, PypxPath, PypxPathView,
};
use crate::text::push_str;
use vstd::prelude::*;

verus! {

/// What was done with an instance that was stored.
#[derive(Debug)]
pub struct RepackOutcome {
    /// Where the instance is stored.
    pub dst: String,
    /// The attributes that could not be read, with the errors.
    pub missing: Vec<DicomTagAndError>,
    pub PatientID: String,
    pub SeriesInstanceUID: String,
}

/// What a [`RepackOutcome`] holds.
pub struct RepackOutcomeView {
    pub dst: Seq<char>,
    pub missing: Seq<DicomTagAndError>,
    pub PatientID: Seq<char>,
    pub SeriesInstanceUID: Seq<char>,
}

impl View for RepackOutcome {
    type V = RepackOutcomeView;

    open spec fn view(&self) -> RepackOutcomeView {
        RepackOutcomeView {
            dst: self.dst@,
            missing: self.missing@,
            PatientID: self.PatientID@,
            SeriesInstanceUID: self.SeriesInstanceUID@,
        }
    }
}

/// Why an instance was not stored.
#[derive(Debug)]
pub enum RepackError {
    /// A required attribute could not be read.
    Field(DicomTagAndError),
    /// A file operation failed; the text says how.
    Io(String),
    /// An event came that the state did not wait for.
    Unexpected,
}

/// What a [`RepackError`] holds.
pub enum RepackErrorView {
    Field(DicomTagAndError),
    Io(Seq<char>),
    Unexpected,
}

impl View for RepackError {
    type V = RepackErrorView;

    open spec fn view(&self) -> RepackErrorView {
        match self {
            RepackError::Field(e) => RepackErrorView::Field(*e),
            RepackError::Io(text) => RepackErrorView::Io(text@),
            RepackError::Unexpected => RepackErrorView::Unexpected,
        }
    }
}

impl RepackErrorView {
    /// The error in words.
    pub open spec fn message(self) -> Seq<char> {
        match self {
            RepackErrorView::Field(e) => e.tag.text() + ": "@ + e.error.message(),
            RepackErrorView::Io(text) => text,
            RepackErrorView::Unexpected => "Unexpected event"@,
        }
    }
}

impl RepackError {
    /// The error in words.
    pub fn to_string(&self) -> (r: String)
        ensures
            r@ == self@.message(),
    {
        match self {
            RepackError::Field(e) => {
                let mut r = e.tag.to_string();
                push_str(&mut r, ": ");
                push_str(&mut r, e.error.to_string().as_str());
                r
            },
            RepackError::Io(text) => text.clone(),
            RepackError::Unexpected => "Unexpected event".to_owned(),
        }
    }
}

/// The instance to store, and how.
pub struct RepackJob<'a> {
    /// The decoded instance.
    pub dcm: &'a DicomObject,
    /// The directory below which instances are stored.
    pub data_dir: String,
    /// The directory below which records are kept, if any are.
    pub log_dir: Option<String>,
    /// Whether the received file is moved rather than copied.
    pub cleanup: bool,
}

/// What a [`RepackJob`] holds.
pub struct RepackJobView {
    pub dcm: DicomObject,
    pub data_dir: Seq<char>,
    pub log_dir: Option<Seq<char>>,
    pub cleanup: bool,
}

impl<'a> View for RepackJob<'a> {
    type V = RepackJobView;

    open spec fn view(&self) -> RepackJobView {
        RepackJobView {
            dcm: *self.dcm,
            data_dir: self.data_dir@,
            log_dir: match self.log_dir {
                Some(dir) => Some(dir@),
                None => None,
            },
            cleanup: self.cleanup,
        }
    }
}

/// What is known of an instance once its fields are read: the fields, its
/// place, and the errors met so far.
pub struct Progress {
    pub common: CommonElements,
    pub unpack: PypxPath,
    pub missing: Vec<DicomTagAndError>,
}

/// What a [`Progress`] holds.
pub struct ProgressView {
    pub common: CommonElementsView,
    pub unpack: PypxPathView,
    pub missing: Seq<DicomTagAndError>,
}

impl View for Progress {
    type V = ProgressView;

    open spec fn view(&self) -> ProgressView {
        ProgressView { common: self.common@, unpack: self.unpack@, missing: self.missing@ }
    }
}

/// How far the storing of an instance has come.
pub enum RepackState {
    /// Nothing was done yet.
    Start,
    /// The directory of the instance is being made.
    MakingDir(Progress),
    /// The received file is being renamed to its place.
    Moving(Progress),
    /// The received file is being copied to its place; `remove_source` says
    /// whether it is removed afterwards.
    Copying { progress: Progress, remove_source: bool },
    /// The received file is being removed.
    Removing(Progress),
    /// The log directory is being looked at.
    Inspecting(Progress),
    /// The records are being written.
    Writing { outcome: RepackOutcome },
    /// The instance was stored, or given up.
    Finished,
}

/// What a [`RepackState`] holds.
pub enum RepackStateView {
    Start,
    MakingDir(ProgressView),
    Moving(ProgressView),
    Copying { progress: ProgressView, remove_source: bool },
    Removing(ProgressView),
    Inspecting(ProgressView),
    Writing { outcome: RepackOutcomeView },
    Finished,
}

impl View for RepackState {
    type V = RepackStateView;

    open spec fn view(&self) -> RepackStateView {
        match self {
            RepackState::Start => RepackStateView::Start,
            RepackState::MakingDir(p) => RepackStateView::MakingDir(p@),
            RepackState::Moving(p) => RepackStateView::Moving(p@),
            RepackState::Copying { progress, remove_source } => RepackStateView::Copying {
                progress: progress@,
                remove_source: *remove_source,
            },
            RepackState::Removing(p) => RepackStateView::Removing(p@),
            RepackState::Inspecting(p) => RepackStateView::Inspecting(p@),
            RepackState::Writing { outcome } => RepackStateView::Writing { outcome: outcome@ },
            RepackState::Finished => RepackStateView::Finished,
        }
    }
}

/// What has happened since the last step.
pub enum RepackEvent {
    /// The instance was decoded; nothing else has happened.
    Decoded,
    /// The last action was carried out.
    Done,
    /// The log directory was looked at.
    Inspected(ExistingLogs),
    /// The last action failed; the text says how.
    Failed(String),
}

/// What a [`RepackEvent`] holds.
pub enum RepackEventView {
    Decoded,
    Done,
    Inspected(ExistingLogsView),
    Failed(Seq<char>),
}

impl View for RepackEvent {
    type V = RepackEventView;

    open spec fn view(&self) -> RepackEventView {
        match self {
            RepackEvent::Decoded => RepackEventView::Decoded,
            RepackEvent::Done => RepackEventView::Done,
            RepackEvent::Inspected(existing) => RepackEventView::Inspected(existing@),
            RepackEvent::Failed(text) => RepackEventView::Failed(text@),
        }
    }
}

/// What is to be done next.
pub enum RepackAction {
    /// Make the directory `dir`, with the directories above it.
    MakeDir { dir: String },
    /// Rename the received file to `dst`.
    Rename { dst: String },
    /// Copy the received file to `dst`.
    Copy { dst: String },
    /// Remove the received file.
    RemoveSource,
    /// Find out which of these files exist, and read the log of the patient.
    Inspect(LogPaths),
    /// Write these files, in this order.
    Write(Vec<LogWrite>),
    /// Nothing: the instance is stored.
    Done(RepackOutcome),
    /// Nothing: the instance is given up.
    Fail(RepackError),
}

/// What a [`RepackAction`] holds.
pub enum RepackActionView {
    MakeDir { dir: Seq<char> },
    Rename { dst: Seq<char> },
    Copy { dst: Seq<char> },
    RemoveSource,
    Inspect(LogPathsView),
    Write(Seq<LogWriteView>),
    Done(RepackOutcomeView),
    Fail(RepackErrorView),
}

impl View for RepackAction {
    type V = RepackActionView;

    open spec fn view(&self) -> RepackActionView {
        match self {
            RepackAction::MakeDir { dir } => RepackActionView::MakeDir { dir: dir@ },
            RepackAction::Rename { dst } => RepackActionView::Rename { dst: dst@ },
            RepackAction::Copy { dst } => RepackActionView::Copy { dst: dst@ },
            RepackAction::RemoveSource => RepackActionView::RemoveSource,
            RepackAction::Inspect(paths) => RepackActionView::Inspect(paths@),
            RepackAction::Write(writes) => RepackActionView::Write(writes_view(writes@)),
            RepackAction::Done(outcome) => RepackActionView::Done(outcome@),
            RepackAction::Fail(error) => RepackActionView::Fail(error@),
        }
    }
}

impl RepackActionView {
    /// Whether the action changes a file or a directory.
    pub open spec fn touches_files(self) -> bool {
        self is MakeDir || self is Rename || self is Copy || self is RemoveSource || self is Write
    }
}

/// The outcome of storing an instance.
pub open spec fn outcome_of(p: ProgressView) -> RepackOutcomeView {
    RepackOutcomeView {
        dst: p.unpack.path,
        missing: p.missing,
        PatientID: p.common.PatientID,
        SeriesInstanceUID: p.common.SeriesInstanceUID,
    }
}

/// What is known of an instance whose required attributes can all be read.
pub open spec fn progress_of(job: RepackJobView) -> ProgressView {
    let common = projected(job.dcm);
    ProgressView {
        common,
        unpack: resolved(common, job.data_dir),
        missing: optional_errors(job.dcm),
    }
}

/// The first step: the fields are projected and the place is resolved. A
/// required attribute that cannot be read ends the work before anything is
/// moved or written; otherwise the directory of the instance is made.
pub open spec fn first_step(job: RepackJobView) -> (RepackStateView, RepackActionView) {
    match required_failure(job.dcm) {
        Some(e) => (RepackStateView::Finished, RepackActionView::Fail(RepackErrorView::Field(e))),
        None => (
            RepackStateView::MakingDir(progress_of(job)),
            RepackActionView::MakeDir { dir: progress_of(job).unpack.dir },
        ),
    }
}

/// The step after the directory is made: the received file is renamed where
/// it is to be cleaned up, and copied where it is to stay.
pub open spec fn directory_made_step(job: RepackJobView, p: ProgressView) -> (
    RepackStateView,
    RepackActionView,
) {
    if job.cleanup {
        (RepackStateView::Moving(p), RepackActionView::Rename { dst: p.unpack.path })
    } else {
        (
            RepackStateView::Copying { progress: p, remove_source: false },
            RepackActionView::Copy { dst: p.unpack.path },
        )
    }
}

/// The step after a failed renaming: a file cannot be renamed from one file
/// system to another, so it is copied and then removed.
pub open spec fn rename_failed_step(p: ProgressView) -> (RepackStateView, RepackActionView) {
    (
        RepackStateView::Copying { progress: p, remove_source: true },
        RepackActionView::Copy { dst: p.unpack.path },
    )
}

/// The step after the file is in its place: with a log directory, the log
/// directory is looked at; without one, the work is done.
pub open spec fn relocated_step(job: RepackJobView, p: ProgressView) -> (
    RepackStateView,
    RepackActionView,
) {
    match job.log_dir {
        Some(log_dir) => (
            RepackStateView::Inspecting(p),
            RepackActionView::Inspect(log_paths_of(p.common, p.unpack.fname, log_dir)),
        ),
        None => (RepackStateView::Finished, RepackActionView::Done(outcome_of(p))),
    }
}

/// The step after the file is copied: it is removed where that is due.
pub open spec fn copied_step(job: RepackJobView, p: ProgressView, remove_source: bool) -> (
    RepackStateView,
    RepackActionView,
) {
    if remove_source {
        (RepackStateView::Removing(p), RepackActionView::RemoveSource)
    } else {
        relocated_step(job, p)
    }
}

/// The step after the log directory was looked at: the records are made, and
/// the errors met are added to those met before.
pub open spec fn inspected_step(job: RepackJobView, p: ProgressView, existing: ExistingLogsView) -> (
    RepackStateView,
    RepackActionView,
) {
    match job.log_dir {
        Some(log_dir) => (
            RepackStateView::Writing {
                outcome: outcome_of(
                    ProgressView {
                        common: p.common,
                        unpack: p.unpack,
                        missing: p.missing + planned_errors(job.dcm, p.common, existing),
                    },
                ),
            },
            RepackActionView::Write(
                planned_writes(job.dcm, p.common, p.unpack, log_dir, existing),
            ),
        ),
        None => (RepackStateView::Finished, RepackActionView::Fail(RepackErrorView::Unexpected)),
    }
}

/// The state and the action that follow from a state and an event.
///
/// A failed action ends the work, but for a failed renaming. An event that
/// the state does not wait for ends the work too.
pub open spec fn next_step(job: RepackJobView, state: RepackStateView, event: RepackEventView) -> (
    RepackStateView,
    RepackActionView,
) {
    match (state, event) {
        (RepackStateView::Finished, _) => (
            RepackStateView::Finished,
            RepackActionView::Fail(RepackErrorView::Unexpected),
        ),
        (RepackStateView::Moving(p), RepackEventView::Failed(text)) => rename_failed_step(p),
        (_, RepackEventView::Failed(text)) => (
            RepackStateView::Finished,
            RepackActionView::Fail(RepackErrorView::Io(text)),
        ),
        (RepackStateView::Start, RepackEventView::Decoded) => first_step(job),
        (RepackStateView::MakingDir(p), RepackEventView::Done) => directory_made_step(job, p),
        (RepackStateView::Moving(p), RepackEventView::Done) => relocated_step(job, p),
        (RepackStateView::Copying { progress, remove_source }, RepackEventView::Done) => {
            copied_step(job, progress, remove_source)
        },
        (RepackStateView::Removing(p), RepackEventView::Done) => relocated_step(job, p),
        (RepackStateView::Inspecting(p), RepackEventView::Inspected(existing)) => inspected_step(
            job,
            p,
            existing,
        ),
        (RepackStateView::Writing { outcome }, RepackEventView::Done) => (
            RepackStateView::Finished,
            RepackActionView::Done(outcome),
        ),
        _ => (RepackStateView::Finished, RepackActionView::Fail(RepackErrorView::Unexpected)),
    }
}

fn begin(job: &RepackJob) -> (r: (RepackState, RepackAction))
    ensures
        (r.0@, r.1@) == first_step(job@),
{
    let mut missing: Vec<DicomTagAndError> = Vec::new();
    match CommonElements::try_from(job.dcm, &mut missing) {
        Err(e) => (RepackState::Finished, RepackAction::Fail(RepackError::Field(e))),
        Ok(common) => {
            assert(missing@ =~= optional_errors(*job.dcm));
            let unpack = PypxPath::new(&common, job.data_dir.as_str());
            let action = RepackAction::MakeDir { dir: unpack.dir.clone() };
            (RepackState::MakingDir(Progress { common, unpack, missing }), action)
        },
    }
}

fn after_directory(job: &RepackJob, p: Progress) -> (r: (RepackState, RepackAction))
    ensures
        (r.0@, r.1@) == directory_made_step(job@, p@),
{
    let dst = p.unpack.path.clone();
    if job.cleanup {
        (RepackState::Moving(p), RepackAction::Rename { dst })
    } else {
        (RepackState::Copying { progress: p, remove_source: false }, RepackAction::Copy { dst })
    }
}

fn after_failed_rename(p: Progress) -> (r: (RepackState, RepackAction))
    ensures
        (r.0@, r.1@) == rename_failed_step(p@),
{
    let dst = p.unpack.path.clone();
    (RepackState::Copying { progress: p, remove_source: true }, RepackAction::Copy { dst })
}

fn after_relocation(job: &RepackJob, p: Progress) -> (r: (RepackState, RepackAction))
    ensures
        (r.0@, r.1@) == relocated_step(job@, p@),
{
    match &job.log_dir {
        Some(log_dir) => {
            let paths = log_paths(&p.common, &p.unpack, log_dir.as_str());
            (RepackState::Inspecting(p), RepackAction::Inspect(paths))
        },
        None => {
            let outcome = RepackOutcome {
                dst: p.unpack.path,
                missing: p.missing,
                PatientID: p.common.PatientID,
                SeriesInstanceUID: p.common.SeriesInstanceUID,
            };
            (RepackState::Finished, RepackAction::Done(outcome))
        },
    }
}

fn after_copy(job: &RepackJob, p: Progress, remove_source: bool) -> (r: (
    RepackState,
    RepackAction,
))
    ensures
        (r.0@, r.1@) == copied_step(job@, p@, remove_source),
{
    if remove_source {
        (RepackState::Removing(p), RepackAction::RemoveSource)
    } else {
        after_relocation(job, p)
    }
}

fn after_inspection(job: &RepackJob, p: Progress, existing: ExistingLogs) -> (r: (
    RepackState,
    RepackAction,
))
    ensures
        (r.0@, r.1@) == inspected_step(job@, p@, existing@),
{
    match &job.log_dir {
        Some(log_dir) => {
            let (writes, mut errors) = write_logs(
                job.dcm,
                &p.common,
                &p.unpack,
                log_dir.as_str(),
                existing,
            );
            let mut missing = p.missing;
            missing.append(&mut errors);
            let outcome = RepackOutcome {
                dst: p.unpack.path,
                missing,
                PatientID: p.common.PatientID,
                SeriesInstanceUID: p.common.SeriesInstanceUID,
            };
            (RepackState::Writing { outcome }, RepackAction::Write(writes))
        },
        None => (RepackState::Finished, RepackAction::Fail(RepackError::Unexpected)),
    }
}

/// Decides what is done next to store an instance.
///
/// The caller starts in [`RepackState::Start`] with [`RepackEvent::Decoded`],
/// carries out each action that is returned and reports its end with the
/// next event, until the action is [`RepackAction::Done`] or
/// [`RepackAction::Fail`].
pub fn repack(job: &RepackJob, state: RepackState, event: RepackEvent) -> (r: (
    RepackState,
    RepackAction,
))
    ensures
        (r.0@, r.1@) == next_step(job@, state@, event@),
{
    match (state, event) {
        (RepackState::Finished, _) => (
            RepackState::Finished,
            RepackAction::Fail(RepackError::Unexpected),
        ),
        (RepackState::Moving(p), RepackEvent::Failed(_)) => after_failed_rename(p),
        (_, RepackEvent::Failed(text)) => (
            RepackState::Finished,
            RepackAction::Fail(RepackError::Io(text)),
        ),
        (RepackState::Start, RepackEvent::Decoded) => begin(job),
        (RepackState::MakingDir(p), RepackEvent::Done) => after_directory(job, p),
        (RepackState::Moving(p), RepackEvent::Done) => after_relocation(job, p),
        (RepackState::Copying { progress, remove_source }, RepackEvent::Done) => {
            after_copy(job, progress, remove_source)
        },
        (RepackState::Removing(p), RepackEvent::Done) => after_relocation(job, p),
        (RepackState::Inspecting(p), RepackEvent::Inspected(existing)) => {
            after_inspection(job, p, existing)
        },
        (RepackState::Writing { outcome }, RepackEvent::Done) => (
            RepackState::Finished,
            RepackAction::Done(outcome),
        ),
        _ => (RepackState::Finished, RepackAction::Fail(RepackError::Unexpected)),
    }
}

/// A required attribute that cannot be read ends the work cleanly: the first
/// step gives the instance up with the error of a required attribute, and
/// from then on no step touches a file.
pub proof fn lemma_required_failure_aborts(job: RepackJobView, a: Attribute)
    requires
        is_required(a),
        failure_at(job.dcm, a) is Some,
    ensures
        required_failure(job.dcm) is Some,
        next_step(job, RepackStateView::Start, RepackEventView::Decoded) == (
            RepackStateView::Finished,
            RepackActionView::Fail(RepackErrorView::Field(required_failure(job.dcm)->0)),
        ),
        forall|event: RepackEventView| #[trigger]
            next_step(job, RepackStateView::Finished, event) == (
                RepackStateView::Finished,
                RepackActionView::Fail(RepackErrorView::Unexpected),
            ),
        forall|event: RepackEventView|
            !(#[trigger] next_step(job, RepackStateView::Finished, event)).1.touches_files(),
{
    lemma_required_failure(job.dcm);
}

/// Only the first step fails on an attribute, and only where a required one
/// cannot be read: a missing optional attribute never gives an instance up.
pub proof fn lemma_only_required_fields_are_fatal(
    job: RepackJobView,
    state: RepackStateView,
    event: RepackEventView,
)
    requires
        next_step(job, state, event).1 matches RepackActionView::Fail(error) && error is Field,
    ensures
        state is Start,
        event is Decoded,
        required_failure(job.dcm) is Some,
{
}

/// A file that cannot be renamed is copied and then removed; a file that is
/// to stay is copied and never removed.
pub proof fn lemma_relocation(job: RepackJobView, p: ProgressView, text: Seq<char>)
    ensures
        next_step(job, RepackStateView::MakingDir(p), RepackEventView::Done).1 == (if job.cleanup {
            RepackActionView::Rename { dst: p.unpack.path }
        } else {
            RepackActionView::Copy { dst: p.unpack.path }
        }),
        next_step(job, RepackStateView::Moving(p), RepackEventView::Failed(text)) == (
            RepackStateView::Copying { progress: p, remove_source: true },
            RepackActionView::Copy { dst: p.unpack.path },
        ),
        next_step(
            job,
            RepackStateView::Copying { progress: p, remove_source: true },
            RepackEventView::Done,
        ) == (RepackStateView::Removing(p), RepackActionView::RemoveSource),
        !(next_step(
            job,
            RepackStateView::Copying { progress: p, remove_source: false },
            RepackEventView::Done,
        ).1 is RemoveSource),
{
}

/// The placeholder of a patient's name is its own segment.
proof fn lemma_patient_name_is_kept()
    ensures
        sanitized("PatientName"@) == "PatientName"@,
{
    reveal_strlit("PatientName");
    let s = "PatientName"@;
    assert(s =~= seq!['P', 'a', 't', 'i', 'e', 'n', 't', 'N', 'a', 'm', 'e']);
    assert forall|i: int| 0 <= i < s.len() implies is_kept(#[trigger] s[i]) by {
    }
    lemma_sanitized_of_kept(s);
}

/// A missing optional attribute degrades gracefully: where the name of the
/// patient is absent and every other attribute of the path can be read, the
/// work goes on, the directory of the patient holds the word `PatientName`
/// where the name would stand, and the projection records one error, that of
/// the name.
pub proof fn lemma_missing_patient_name(job: RepackJobView)
    requires
        required_failure(job.dcm) is None,
        job.dcm.spec_element(Attribute::PatientName.spec_tag()) is None,
        failure_at(job.dcm, Attribute::InstanceNumber) is None,
        failure_at(job.dcm, Attribute::PatientBirthDate) is None,
        failure_at(job.dcm, Attribute::StudyDescription) is None,
        failure_at(job.dcm, Attribute::StudyDate) is None,
        failure_at(job.dcm, Attribute::SeriesDescription) is None,
    ensures
        ({
            let p = progress_of(job);
            let error = DicomTagAndError {
                tag: Attribute::PatientName.spec_tag(),
                error: DicomTagError::Access,
            };
            &&& p.common.PatientName == "PatientName"@
            &&& p.missing == seq![error]
            &&& root_segment(p.common) == dashed(
                sanitized(p.common.PatientID),
                "PatientName"@,
                sanitized(p.common.PatientBirthDate),
            )
            &&& next_step(job, RepackStateView::Start, RepackEventView::Decoded) == (
                RepackStateView::MakingDir(p),
                RepackActionView::MakeDir { dir: p.unpack.dir },
            )
        }),
{
    let fields = projected(job.dcm);
    let error = DicomTagAndError {
        tag: Attribute::PatientName.spec_tag(),
        error: DicomTagError::Access,
    };
    assert(failure_at(job.dcm, Attribute::PatientName) == Some(error));
    assert(optional_errors(job.dcm) =~= seq![error]);
    lemma_patient_name_is_kept();
    lemma_sanitized_dashed(fields.PatientID, fields.PatientName, fields.PatientBirthDate);
}

/// The absent name of a patient is recorded once, with or without a log
/// directory, whatever the log directory holds: where the name of the patient
/// is absent and nothing else is unreadable, the outcome lists one error,
/// that of the tag `(0010,0010)`.
pub proof fn lemma_missing_patient_name_is_recorded_once(
    job: RepackJobView,
    existing: ExistingLogsView,
)
    requires
        required_failure(job.dcm) is None,
        job.dcm.spec_element(Attribute::PatientName.spec_tag()) is None,
        failure_at(job.dcm, Attribute::InstanceNumber) is None,
        failure_at(job.dcm, Attribute::PatientBirthDate) is None,
        failure_at(job.dcm, Attribute::StudyDescription) is None,
        failure_at(job.dcm, Attribute::StudyDate) is None,
        failure_at(job.dcm, Attribute::SeriesDescription) is None,
        forall|a: Attribute|
            is_record_only(a) ==> (#[trigger] job.dcm.text_at(a.spec_tag())) is Ok,
    ensures
        ({
            let p = progress_of(job);
            let error = DicomTagAndError { tag: Tag(0x0010, 0x0010), error: DicomTagError::Access };
            let outcome = outcome_of(p);
            &&& outcome.missing == seq![error]
            &&& outcome.missing.len() == 1
            &&& outcome.missing[0].tag == Tag(0x0010, 0x0010)
            &&& job.log_dir is None ==> relocated_step(job, p) == (
                RepackStateView::Finished,
                RepackActionView::Done(outcome),
            )
            &&& job.log_dir is Some ==> inspected_step(job, p, existing).0
                == RepackStateView::Writing { outcome }
            &&& next_step(
                job,
                RepackStateView::Inspecting(p),
                RepackEventView::Inspected(existing),
            ) == inspected_step(job, p, existing)
            &&& next_step(job, RepackStateView::Writing { outcome }, RepackEventView::Done) == (
                RepackStateView::Finished,
                RepackActionView::Done(outcome),
            )
        }),
{
    let p = progress_of(job);
    lemma_missing_patient_name(job);
    lemma_no_record_errors(job.dcm, p.common, existing);
    assert(p.missing + Seq::<DicomTagAndError>::empty() =~= p.missing);
}

/// The errors of an outcome are those of the projection, followed by those
/// met when the records were made; the second are errors of attributes that
/// are read for records alone, so none is an attribute of the projection.
pub proof fn lemma_outcome_errors(job: RepackJobView, p: ProgressView, existing: ExistingLogsView)
    requires
        required_failure(job.dcm) is None,
        job.log_dir is Some,
    ensures
        inspected_step(job, p, existing).0 matches RepackStateView::Writing { outcome }
            && outcome.missing == p.missing + planned_errors(job.dcm, p.common, existing),
        forall|i: int, a: Attribute|
            0 <= i < planned_errors(job.dcm, p.common, existing).len() && (is_required(a)
                || is_optional(a)) ==> (#[trigger] planned_errors(
                job.dcm,
                p.common,
                existing,
            )[i]).tag != #[trigger] a.spec_tag(),
{
    lemma_records_read_other_tags(job.dcm, p.common, existing);
}

} // verus!
