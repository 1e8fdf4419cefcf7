//! The settings in use, and what the engine has been told of them.
//!
//! The settings file is read again and again. A body that cannot be read or understood
//! changes nothing: the settings in use stay. A body that was read before is not looked
//! at again. Every body that is taken over gets a number of its own, and where it changes
//! what the engine is told, it is marked to be sent. The mark goes away only when the
//! engine has answered to that very body.

use crate::engine::config::{
    default_settings, engine_config_json, engine_json_of, AppConfig, KeyboardLayout,
};
use crate::text::{
    concat2, concat3, decimal, decimal_u64, hex_bytes, hex_prefix, owned, same, utf8_error_text,
    utf8_text,
};
use sha2::{Digest, Sha256};
use vstd::prelude::*;

verus! {

/// The SHA-256 digest of bytes, as `sha2` computes it.
pub uninterp spec fn sha256_digest(bytes: Seq<u8>) -> Seq<u8>;

/// Calls `sha2::Sha256::digest`, which depends on the bytes alone and gives 32 bytes.
#[verifier::external_body]
fn sha256_of(bytes: &[u8]) -> (r: [u8; 32])
    ensures
        r@ == sha256_digest(bytes@),
{
    Sha256::digest(bytes).into()
}

/// Where settings come from.
#[derive(Debug, PartialEq)]
pub enum ConfigSource {
    /// The body of the file and its digest.
    File { bytes: Vec<u8>, sha256: [u8; 32] },
    /// No body was there at the start.
    Defaults,
}

#[verifier::ext_equal]
pub enum SourceModel {
    File { bytes: Seq<u8>, sha256: Seq<u8> },
    Defaults,
}

impl View for ConfigSource {
    type V = SourceModel;

    open spec fn view(&self) -> SourceModel {
        match self {
            ConfigSource::File { bytes, sha256 } => SourceModel::File {
                bytes: bytes@,
                sha256: sha256@,
            },
            ConfigSource::Defaults => SourceModel::Defaults,
        }
    }
}

impl ConfigSource {
    /// The digest of the body, where there is one.
    pub fn sha256(&self) -> (r: Option<[u8; 32]>)
        ensures
            (match r {
                Some(h) => Some(h@),
                None => None,
            }) == (match self@ {
                SourceModel::File { sha256, .. } => Some(sha256),
                SourceModel::Defaults => None,
            }),
    {
        match self {
            ConfigSource::File { sha256, .. } => Some(*sha256),
            ConfigSource::Defaults => None,
        }
    }
}

/// What a body says, or why it cannot be understood.
pub type BodyReading = spec_fn(Seq<u8>) -> Result<AppConfig, Seq<char>>;

/// The settings of one body, and what the engine is told of them. It is never changed.
#[derive(Debug, PartialEq)]
pub struct ConfigSnapshot {
    pub revision: u64,
    pub source: ConfigSource,
    pub app_config: AppConfig,
    pub engine_json: String,
}

#[verifier::ext_equal]
pub struct SnapshotModel {
    pub revision: u64,
    pub source: SourceModel,
    pub app_config: AppConfig,
    pub engine_json: Seq<char>,
}

impl View for ConfigSnapshot {
    type V = SnapshotModel;

    open spec fn view(&self) -> SnapshotModel {
        SnapshotModel {
            revision: self.revision,
            source: self.source@,
            app_config: self.app_config,
            engine_json: self.engine_json@,
        }
    }
}

impl SnapshotModel {
    /// Digest and text for the engine belong to body and settings, and without a body the
    /// settings are the usual ones.
    pub open spec fn wf(self) -> bool {
        &&& self.engine_json == engine_json_of(self.app_config)
        &&& match self.source {
            SourceModel::File { bytes, sha256 } => sha256 == sha256_digest(bytes),
            SourceModel::Defaults => default_settings(self.app_config),
        }
    }

    /// The settings are what `reading` finds in the body.
    pub open spec fn says(self, reading: BodyReading) -> bool {
        match self.source {
            SourceModel::File { bytes, .. } => reading(bytes) == Ok::<AppConfig, Seq<char>>(
                self.app_config,
            ),
            SourceModel::Defaults => default_settings(self.app_config),
        }
    }

    /// What the body is known by.
    pub open spec fn id(self) -> ApplyIdModel {
        ApplyIdModel {
            revision: self.revision,
            sha256: match self.source {
                SourceModel::File { sha256, .. } => Some(sha256),
                SourceModel::Defaults => None,
            },
        }
    }
}

/// What a body is known by when it is sent: its number and its digest.
#[derive(Debug, PartialEq)]
pub struct ApplyId {
    pub revision: u64,
    pub sha256: Option<[u8; 32]>,
}

#[verifier::ext_equal]
pub struct ApplyIdModel {
    pub revision: u64,
    pub sha256: Option<Seq<u8>>,
}

impl View for ApplyId {
    type V = ApplyIdModel;

    open spec fn view(&self) -> ApplyIdModel {
        ApplyIdModel {
            revision: self.revision,
            sha256: match self.sha256 {
                Some(h) => Some(h@),
                None => None,
            },
        }
    }
}

/// How an id is written in the log.
pub open spec fn id_text(id: ApplyIdModel) -> Seq<char> {
    "rev="@ + decimal(id.revision as nat) + (match id.sha256 {
        Some(h) => " sha256="@ + hex_bytes(h.take(6)),
        None => " sha256=none(defaults)"@,
    })
}

impl ApplyId {
    /// How the id is written in the log: the number and the start of the digest.
    pub fn to_text(&self) -> (r: String)
        ensures
            r@ == id_text(self@),
    {
        let digest = match &self.sha256 {
            Some(h) => concat2(" sha256=", hex_prefix(h.as_slice(), 6).as_str()),
            None => owned(" sha256=none(defaults)"),
        };
        concat3("rev=", decimal_u64(self.revision).as_str(), digest.as_str())
    }

    /// A copy.
    pub fn duplicate(&self) -> (r: ApplyId)
        ensures
            r@ == self@,
    {
        ApplyId { revision: self.revision, sha256: self.sha256 }
    }

    /// Whether both stand for the same body.
    pub fn same_as(&self, other: &ApplyId) -> (r: bool)
        ensures
            r == (self@ == other@),
    {
        if self.revision != other.revision {
            return false;
        }
        match (&self.sha256, &other.sha256) {
            (Some(a), Some(b)) => same_bytes(a.as_slice(), b.as_slice()),
            (None, None) => true,
            _ => false,
        }
    }
}

/// Whether the bytes are the same.
fn same_bytes(a: &[u8], b: &[u8]) -> (r: bool)
    ensures
        r == (a@ == b@),
{
    if a.len() != b.len() {
        return false;
    }
    let mut i: usize = 0;
    while i < a.len()
        invariant
            i <= a@.len() == b@.len(),
            forall|k: int| 0 <= k < i ==> a@[k] == b@[k],
        decreases a.len() - i,
    {
        if a[i] != b[i] {
            return false;
        }
        i += 1;
    }
    assert(a@ =~= b@);
    true
}

impl ConfigSnapshot {
    /// What the body is known by.
    pub fn apply_id(&self) -> (r: ApplyId)
        ensures
            r@ == self@.id(),
    {
        ApplyId { revision: self.revision, sha256: self.source.sha256() }
    }
}

/// What has the engine told about new settings.
#[derive(Clone, Copy, Debug, PartialEq, Eq, Structural)]
pub enum ApplyTrigger {
    /// Settings were saved, or a restart was asked for from the tray.
    SaveEvent,
    /// The mode was switched.
    ModeSwitch,
    /// A restart was asked for in the language bar.
    ManualRestart,
}

/// How the engine answered.
#[derive(Clone, Copy, Debug, PartialEq, Eq, Structural)]
pub enum ApplyOutcome {
    /// It runs with these settings already.
    SameConfig,
    /// It starts again.
    RestartAccepted,
    /// It ends. `fallback`: it was told to without being asked first.
    ShutdownAcknowledged { fallback: bool },
    /// It did not answer, or not as it should.
    CommFailure,
}

/// A body that was sent and not answered yet.
#[derive(Debug, PartialEq)]
pub struct InFlight {
    pub id: ApplyId,
    pub trigger: ApplyTrigger,
}

/// What became of a body.
#[derive(Clone, Copy, Debug, PartialEq, Eq, Structural)]
pub enum LoadOutcome {
    /// It was read before.
    Unchanged,
    /// It was taken over.
    Updated,
    /// It could not be read or understood.
    Failed,
}

/// What was found in place of the settings file.
#[derive(Debug, PartialEq)]
pub enum LoadInput {
    /// Nothing that could be read, and why.
    Unreadable { error: String },
    /// A body, and what it says or why it cannot be understood. What it says is not
    /// looked at where the body was read before.
    Body { bytes: Vec<u8>, parsed: Result<AppConfig, String> },
}

#[verifier::ext_equal]
pub enum LoadInputModel {
    Unreadable { error: Seq<char> },
    Body { bytes: Seq<u8>, parsed: Result<AppConfig, Seq<char>> },
}

impl View for LoadInput {
    type V = LoadInputModel;

    open spec fn view(&self) -> LoadInputModel {
        match *self {
            LoadInput::Unreadable { error } => LoadInputModel::Unreadable { error: error@ },
            LoadInput::Body { bytes, parsed } => LoadInputModel::Body {
                bytes: bytes@,
                parsed: match parsed {
                    Ok(c) => Ok(c),
                    Err(e) => Err(e@),
                },
            },
        }
    }
}

/// What the log is told about a load.
#[derive(Debug, PartialEq)]
pub enum LoadNoteOf<T> {
    Quiet,
    /// A failure that was not reported yet.
    Warn { text: T },
    /// A failure that was reported already.
    Still { text: T },
    /// The file can be read again.
    Recovered { text: T },
}

pub type LoadNote = LoadNoteOf<String>;

pub type NoteModel = LoadNoteOf<Seq<char>>;

impl View for LoadNoteOf<String> {
    type V = NoteModel;

    open spec fn view(&self) -> NoteModel {
        match *self {
            LoadNoteOf::Quiet => LoadNoteOf::Quiet,
            LoadNoteOf::Warn { text } => LoadNoteOf::Warn { text: text@ },
            LoadNoteOf::Still { text } => LoadNoteOf::Still { text: text@ },
            LoadNoteOf::Recovered { text } => LoadNoteOf::Recovered { text: text@ },
        }
    }
}

/// The characters of the body, or why it has none.
pub fn config_text(bytes: &Vec<u8>) -> (r: Result<String, String>)
    ensures
        r is Ok <==> vstd::utf8::valid_utf8(bytes@),
        r is Ok ==> r->Ok_0@ == vstd::utf8::decode_utf8(bytes@),
        r is Err ==> r->Err_0@ == utf8_error_text(bytes@),
{
    utf8_text(bytes.as_slice())
}

/// The settings of a body.
pub open spec fn snapshot_of(bytes: Seq<u8>, config: AppConfig, revision: u64) -> SnapshotModel {
    SnapshotModel {
        revision,
        source: SourceModel::File { bytes, sha256: sha256_digest(bytes) },
        app_config: config,
        engine_json: engine_json_of(config),
    }
}

/// The settings of a body that says `parsed`.
pub fn build_snapshot_from_bytes(
    bytes: Vec<u8>,
    parsed: AppConfig,
    revision: u64,
) -> (r: ConfigSnapshot)
    ensures
        r@ == snapshot_of(bytes@, parsed, revision),
{
    let engine_json = engine_config_json(&parsed);
    let sha256 = sha256_of(bytes.as_slice());
    ConfigSnapshot {
        revision,
        source: ConfigSource::File { bytes, sha256 },
        app_config: parsed,
        engine_json,
    }
}

/// The settings without a file.
pub open spec fn is_defaults_snapshot(s: SnapshotModel, revision: u64) -> bool {
    &&& s.revision == revision
    &&& s.source is Defaults
    &&& default_settings(s.app_config)
    &&& s.engine_json == engine_json_of(s.app_config)
}

/// The settings without a file.
pub fn defaults_snapshot(revision: u64) -> (r: ConfigSnapshot)
    ensures
        is_defaults_snapshot(r@, revision),
{
    let app_config = AppConfig::default();
    let engine_json = engine_config_json(&app_config);
    ConfigSnapshot { revision, source: ConfigSource::Defaults, app_config, engine_json }
}

/// Notes a failure. Says whether it is one that was not noted just before.
pub fn note_load_failure(last: &mut Option<String>, error: &str) -> (r: bool)
    ensures
        r == !(*old(last) matches Some(e) && e@ == error@),
        *final(last) matches Some(e) && e@ == error@,
{
    if let Some(e) = last.as_ref() {
        if same(e.as_str(), error) {
            return false;
        }
    }
    *last = Some(owned(error));
    true
}

/// Notes a success. Says whether a failure came before it.
pub fn note_load_success(last: &mut Option<String>) -> (r: bool)
    ensures
        r == (*old(last) is Some),
        *final(last) is None,
{
    let r = last.is_some();
    *last = None;
    r
}

/// The settings in use and what is on its way to the engine.
pub struct ConfigManager {
    path: String,
    current: ConfigSnapshot,
    next_revision: u64,
    pending_apply: Option<ApplyId>,
    in_flight: Option<InFlight>,
    last_load_failure: Option<String>,
}

#[verifier::ext_equal]
pub struct ManagerModel {
    /// Name of the file.
    pub path: Seq<char>,
    pub current: SnapshotModel,
    pub next_revision: u64,
    /// The body that the engine has to be told about.
    pub pending: Option<ApplyIdModel>,
    /// The body that it was told about and has not answered to.
    pub in_flight: Option<(ApplyIdModel, ApplyTrigger)>,
    /// Why the file could not be read or understood the last time.
    pub last_failure: Option<Seq<char>>,
}

/// The view of an id that may be there.
pub open spec fn id_view(id: Option<ApplyId>) -> Option<ApplyIdModel> {
    match id {
        Some(id) => Some(id@),
        None => None,
    }
}

impl View for ConfigManager {
    type V = ManagerModel;

    closed spec fn view(&self) -> ManagerModel {
        ManagerModel {
            path: self.path@,
            current: self.current@,
            next_revision: self.next_revision,
            pending: id_view(self.pending_apply),
            in_flight: match self.in_flight {
                Some(f) => Some((f.id@, f.trigger)),
                None => None,
            },
            last_failure: match self.last_load_failure {
                Some(e) => Some(e@),
                None => None,
            },
        }
    }
}

/// The number after `revision`; the last one is given out again and again.
pub open spec fn next_number(revision: u64) -> u64 {
    if revision == u64::MAX {
        u64::MAX
    } else {
        (revision + 1) as u64
    }
}

impl ManagerModel {
    /// What is to be sent is what is in use, and the next number follows the one in use while
    /// there is one.
    pub open spec fn wf(self) -> bool {
        &&& self.current.wf()
        &&& self.pending matches Some(id) ==> id == self.current.id()
        &&& self.next_revision == next_number(self.current.revision)
    }

    /// A new body is in use.
    pub open spec fn published(self, s: SnapshotModel) -> ManagerModel {
        ManagerModel {
            current: s,
            next_revision: next_number(s.revision),
            pending: if self.current.engine_json != s.engine_json || self.pending is Some {
                Some(s.id())
            } else {
                None
            },
            ..self
        }
    }

    /// What a load that failed does.
    pub open spec fn failed(self, error: Seq<char>, reason: Seq<char>) -> (
        ManagerModel,
        LoadOutcome,
        NoteModel,
    ) {
        (
            ManagerModel { last_failure: Some(error), ..self },
            LoadOutcome::Failed,
            if self.last_failure == Some(error) {
                LoadNoteOf::Still { text: still_text(self.path, reason) }
            } else {
                LoadNoteOf::Warn { text: reload_failed_text(self.path, error, reason) }
            },
        )
    }

    /// What a load does.
    pub open spec fn loaded(self, input: LoadInputModel, reason: Seq<char>) -> (
        ManagerModel,
        LoadOutcome,
        NoteModel,
    ) {
        let read = ManagerModel { last_failure: None, ..self };
        let note = if self.last_failure is Some {
            LoadNoteOf::Recovered { text: readable_text(self.path) }
        } else {
            LoadNoteOf::Quiet
        };
        match input {
            LoadInputModel::Unreadable { error } => self.failed(error, reason),
            LoadInputModel::Body { bytes, parsed } => if self.has_body(bytes) {
                (read, LoadOutcome::Unchanged, note)
            } else {
                match parsed {
                    Err(error) => self.failed(error, reason),
                    Ok(config) => (
                        read.published(snapshot_of(bytes, config, self.next_revision)),
                        LoadOutcome::Updated,
                        note,
                    ),
                }
            },
        }
    }

    /// Whether the body in use is `bytes`.
    pub open spec fn has_body(self, bytes: Seq<u8>) -> bool {
        self.current.source matches SourceModel::File { bytes: b, .. } && b == bytes
    }
}

/// The warning that the first load failed.
pub open spec fn load_failed_text(path: Seq<char>, error: Seq<char>) -> Seq<char> {
    "config.toml load failed; starting with defaults: path="@ + path + " error="@ + error
}

/// The warning that a later load failed.
pub open spec fn reload_failed_text(
    path: Seq<char>,
    error: Seq<char>,
    reason: Seq<char>,
) -> Seq<char> {
    "config.toml reload failed; keeping previous config: path="@ + path + " error="@ + error
        + " ("@ + reason + ")"@
}

/// The note that a load failed as the one before it.
pub open spec fn still_text(path: Seq<char>, reason: Seq<char>) -> Seq<char> {
    "config.toml still unreadable; keeping previous config: path="@ + path + " ("@ + reason + ")"@
}

/// The note that a load succeeded after one that failed.
pub open spec fn readable_text(path: Seq<char>) -> Seq<char> {
    "config.toml readable again: path="@ + path
}

impl ConfigManager {
    /// The first load. There are no settings to keep, so where it fails it is started
    /// without a file, and a warning says so.
    pub fn from_path(path: String, input: LoadInput) -> (r: (ConfigManager, LoadNote))
        ensures
            r.0@.wf(),
            r.0@.path == path@,
            r.0@.next_revision == 2,
            r.0@.pending is None,
            r.0@.in_flight is None,
            r.0@.last_failure is None,
            match input@ {
                LoadInputModel::Body { bytes, parsed: Ok(config) } => r.0@.current == snapshot_of(
                    bytes,
                    config,
                    1,
                ) && r.1@ is Quiet,
                LoadInputModel::Body { parsed: Err(error), .. } => is_defaults_snapshot(
                    r.0@.current,
                    1,
                ) && r.1@ == (NoteModel::Warn { text: load_failed_text(path@, error) }),
                LoadInputModel::Unreadable { error } => is_defaults_snapshot(r.0@.current, 1)
                    && r.1@ == (NoteModel::Warn { text: load_failed_text(path@, error) }),
            },
    {
        let (current, failure): (ConfigSnapshot, Option<String>) = match input {
            LoadInput::Body { bytes, parsed: Ok(config) } => (
                build_snapshot_from_bytes(bytes, config, 1),
                None,
            ),
            LoadInput::Body { bytes: _, parsed: Err(error) } => (
                defaults_snapshot(1),
                Some(error),
            ),
            LoadInput::Unreadable { error } => (defaults_snapshot(1), Some(error)),
        };
        let note: LoadNote = match failure {
            None => LoadNoteOf::Quiet,
            Some(error) => {
                let mut text = concat3(
                    "config.toml load failed; starting with defaults: path=",
                    path.as_str(),
                    " error=",
                );
                text.append(error.as_str());
                LoadNoteOf::Warn { text }
            },
        };
        (
            ConfigManager {
                path,
                current,
                next_revision: 2,
                pending_apply: None,
                in_flight: None,
                last_load_failure: None,
            },
            note,
        )
    }

    /// The settings in use, with their body and their number.
    pub fn snapshot(&self) -> (r: &ConfigSnapshot)
        ensures
            r@ == self@.current,
    {
        &self.current
    }

    /// The settings in use.
    pub fn app_config(&self) -> (r: &AppConfig)
        ensures
            *r == self@.current.app_config,
    {
        &self.current.app_config
    }

    /// The body that the engine has to be told about.
    pub fn pending_apply(&self) -> (r: Option<&ApplyId>)
        ensures
            (match r {
                Some(id) => Some(id@),
                None => None,
            }) == self@.pending,
    {
        self.pending_apply.as_ref()
    }

    /// The body that the engine was told about and has not answered to.
    pub fn in_flight(&self) -> (r: Option<&InFlight>)
        ensures
            (match r {
                Some(f) => Some((f.id@, f.trigger)),
                None => None,
            }) == self@.in_flight,
    {
        self.in_flight.as_ref()
    }

    /// The name of the file.
    pub fn path(&self) -> (r: &str)
        ensures
            r@ == self@.path,
    {
        self.path.as_str()
    }

    /// The file is elsewhere from now on.
    pub fn set_path(&mut self, path: String)
        ensures
            final(self)@ == (ManagerModel { path: path@, ..old(self)@ }),
    {
        self.path = path;
    }

    /// Whether the body in use is `bytes`, so that what it says need not be found out.
    pub fn is_current(&self, bytes: &Vec<u8>) -> (r: bool)
        ensures
            r == self@.has_body(bytes@),
    {
        match &self.current.source {
            ConfigSource::File { bytes: known, .. } => same_bytes(
                known.as_slice(),
                bytes.as_slice(),
            ),
            ConfigSource::Defaults => false,
        }
    }

    fn note_failure(&mut self, error: &str, reason: &str) -> (r: LoadNote)
        ensures
            (final(self)@, LoadOutcome::Failed, r@) == old(self)@.failed(error@, reason@),
    {
        let fresh = note_load_failure(&mut self.last_load_failure, error);
        if fresh {
            let mut text = concat3(
                "config.toml reload failed; keeping previous config: path=",
                self.path.as_str(),
                " error=",
            );
            text.append(error);
            text.append(" (");
            text.append(reason);
            text.append(")");
            LoadNoteOf::Warn { text }
        } else {
            let mut text = concat3(
                "config.toml still unreadable; keeping previous config: path=",
                self.path.as_str(),
                " (",
            );
            text.append(reason);
            text.append(")");
            LoadNoteOf::Still { text }
        }
    }

    fn note_success(&mut self) -> (r: LoadNote)
        ensures
            final(self)@ == (ManagerModel { last_failure: None, ..old(self)@ }),
            r@ == (if old(self)@.last_failure is Some {
                NoteModel::Recovered { text: readable_text(old(self)@.path) }
            } else {
                NoteModel::Quiet
            }),
    {
        if note_load_success(&mut self.last_load_failure) {
            LoadNoteOf::Recovered {
                text: concat2("config.toml readable again: path=", self.path.as_str()),
            }
        } else {
            LoadNoteOf::Quiet
        }
    }

    fn publish(&mut self, snapshot: ConfigSnapshot)
        ensures
            final(self)@ == old(self)@.published(snapshot@),
    {
        let json_changed = !same(self.current.engine_json.as_str(), snapshot.engine_json.as_str());
        self.next_revision = if snapshot.revision == u64::MAX {
            u64::MAX
        } else {
            snapshot.revision + 1
        };
        if json_changed || self.pending_apply.is_some() {
            self.pending_apply = Some(snapshot.apply_id());
        }
        self.current = snapshot;
    }

    /// Reads the file again. Where that fails, the settings in use stay, and so does what
    /// is on its way to the engine.
    pub fn reinit(&mut self, input: LoadInput, reason: &str) -> (r: (LoadOutcome, LoadNote))
        requires
            old(self)@.wf(),
        ensures
            final(self)@.wf(),
            (final(self)@, r.0, r.1@) == old(self)@.loaded(input@, reason@),
    {
        match input {
            LoadInput::Unreadable { error } => {
                (LoadOutcome::Failed, self.note_failure(error.as_str(), reason))
            },
            LoadInput::Body { bytes, parsed } => {
                if self.is_current(&bytes) {
                    return (LoadOutcome::Unchanged, self.note_success());
                }
                match parsed {
                    Err(error) => (
                        LoadOutcome::Failed,
                        self.note_failure(error.as_str(), reason),
                    ),
                    Ok(config) => {
                        let note = self.note_success();
                        let snapshot = build_snapshot_from_bytes(
                            bytes,
                            config,
                            self.next_revision,
                        );
                        self.publish(snapshot);
                        (LoadOutcome::Updated, note)
                    },
                }
            },
        }
    }

    /// Whether the engine has to be told about new settings.
    pub fn has_pending_apply(&self) -> (r: bool)
        ensures
            r == (self@.pending is Some),
    {
        self.pending_apply.is_some()
    }

    /// Starts telling the engine: what it is told, and the id of the body. Without `force`,
    /// only where there is something new.
    pub fn begin_apply(&mut self, trigger: ApplyTrigger, force: bool) -> (r: Option<
        (ApplyId, String),
    >)
        ensures
            r is None <==> !force && old(self)@.pending is None,
            r is None ==> final(self)@ == old(self)@,
            r is Some ==> (r->0).0@ == old(self)@.current.id() && (r->0).1@
                == old(self)@.current.engine_json && final(self)@ == (ManagerModel {
                in_flight: Some((old(self)@.current.id(), trigger)),
                ..old(self)@
            }),
    {
        if !force && self.pending_apply.is_none() {
            return None;
        }
        let id = self.current.apply_id();
        self.in_flight = Some(InFlight { id: id.duplicate(), trigger });
        Some((id, self.current.engine_json.clone()))
    }

    /// The engine has answered to the body `sent`. Says whether nothing is left to tell.
    pub fn finish_apply(&mut self, sent: &ApplyId, outcome: ApplyOutcome) -> (r: bool)
        ensures
            (final(self)@, r) == answered(old(self)@, sent@, outcome),
    {
        let mine = match &self.in_flight {
            Some(f) => f.id.same_as(sent),
            None => false,
        };
        if mine {
            self.in_flight = None;
        }
        let matches_pending = match &self.pending_apply {
            Some(id) => id.same_as(sent),
            None => false,
        };
        if outcome == ApplyOutcome::CommFailure || !matches_pending {
            return false;
        }
        self.pending_apply = None;
        true
    }
}

/// What an answer does: the mark goes away where the answer is to the marked body and is
/// not a failure.
pub open spec fn answered(m: ManagerModel, sent: ApplyIdModel, outcome: ApplyOutcome) -> (
    ManagerModel,
    bool,
) {
    let clears = !(outcome is CommFailure) && m.pending == Some(sent);
    (
        ManagerModel {
            in_flight: match m.in_flight {
                Some((id, trigger)) => if id == sent {
                    None
                } else {
                    Some((id, trigger))
                },
                None => None,
            },
            pending: if clears {
                None
            } else {
                m.pending
            },
            ..m
        },
        clears,
    )
}

/// Reads the file again, for the reason given.
pub fn reload_config(mgr: &mut ConfigManager, input: LoadInput, reason: &str) -> (r: (
    LoadOutcome,
    LoadNote,
))
    requires
        old(mgr)@.wf(),
    ensures
        final(mgr)@.wf(),
        (final(mgr)@, r.0, r.1@) == old(mgr)@.loaded(input@, reason@),
{
    mgr.reinit(input, reason)
}

/// Reads the file again, from the usual place where that is known.
pub fn init_config_manager(
    mgr: &mut ConfigManager,
    path: Option<String>,
    input: LoadInput,
) -> (r: (LoadOutcome, LoadNote))
    requires
        old(mgr)@.wf(),
    ensures
        final(mgr)@.wf(),
        ({
            let placed = ManagerModel {
                path: match path {
                    Some(p) => p@,
                    None => old(mgr)@.path,
                },
                ..old(mgr)@
            };
            (final(mgr)@, r.0, r.1@) == placed.loaded(input@, "init"@)
        }),
{
    if let Some(p) = path {
        mgr.set_path(p);
    }
    mgr.reinit(input, "init")
}

/// The settings in use.
pub fn current_config(mgr: &ConfigManager) -> (r: &AppConfig)
    ensures
        *r == mgr@.current.app_config,
{
    mgr.app_config()
}

/// The settings in use, with their body and their number.
pub fn current_snapshot(mgr: &ConfigManager) -> (r: &ConfigSnapshot)
    ensures
        r@ == mgr@.current,
{
    mgr.snapshot()
}

/// How many candidates a conversion yields.
pub fn effective_num_candidates(mgr: &ConfigManager) -> (r: usize)
    ensures
        r == crate::engine::config::num_candidates_of(mgr@.current.app_config),
{
    mgr.app_config().effective_num_candidates()
}

/// How many candidates a conversion yields.
pub fn get_num_candidates(mgr: &ConfigManager) -> (r: usize)
    ensures
        r == crate::engine::config::num_candidates_of(mgr@.current.app_config),
{
    effective_num_candidates(mgr)
}

/// The layout of the keyboard.
pub fn keyboard_layout(mgr: &ConfigManager) -> (r: KeyboardLayout)
    ensures
        r == mgr@.current.app_config.keyboard.layout,
{
    mgr.app_config().keyboard.layout
}

/// Whether the engine has to be told about new settings.
pub fn has_pending_apply(mgr: &ConfigManager) -> (r: bool)
    ensures
        r == (mgr@.pending is Some),
{
    mgr.has_pending_apply()
}

/// Starts telling the engine.
pub fn begin_apply(mgr: &mut ConfigManager, trigger: ApplyTrigger, force: bool) -> (r: Option<
    (ApplyId, String),
>)
    ensures
        r is None <==> !force && old(mgr)@.pending is None,
        r is None ==> final(mgr)@ == old(mgr)@,
        r is Some ==> (r->0).0@ == old(mgr)@.current.id() && (r->0).1@
            == old(mgr)@.current.engine_json && final(mgr)@ == (ManagerModel {
            in_flight: Some((old(mgr)@.current.id(), trigger)),
            ..old(mgr)@
        }),
{
    mgr.begin_apply(trigger, force)
}

/// The engine has answered.
pub fn finish_apply(mgr: &mut ConfigManager, sent: &ApplyId, outcome: ApplyOutcome) -> (r: bool)
    ensures
        (final(mgr)@, r) == answered(old(mgr)@, sent@, outcome),
{
    mgr.finish_apply(sent, outcome)
}

/// Whether a switch of the mode has the file read again.
pub fn reloads_on_mode_switch(mgr: &ConfigManager) -> (r: bool)
    ensures
        r == mgr@.current.app_config.keyboard.reload_on_mode_switch,
{
    mgr.app_config().keyboard.reload_on_mode_switch
}

/// The mode is switched: the file is read again where the settings want that. Says whether
/// the engine has to be told something, be it from this load or from one before it.
pub fn maybe_reload_on_mode_switch(mgr: &mut ConfigManager, input: LoadInput) -> (r: (
    bool,
    LoadNote,
))
    requires
        old(mgr)@.wf(),
    ensures
        final(mgr)@.wf(),
        !old(mgr)@.current.app_config.keyboard.reload_on_mode_switch ==> !r.0 && r.1@ is Quiet
            && final(mgr)@ == old(mgr)@,
        old(mgr)@.current.app_config.keyboard.reload_on_mode_switch ==> ({
            let (after, _, note) = old(mgr)@.loaded(input@, "mode_switch"@);
            final(mgr)@ == after && r.1@ == note && r.0 == (after.pending is Some)
        }),
{
    if !reloads_on_mode_switch(mgr) {
        return (false, LoadNoteOf::Quiet);
    }
    let (_, note) = mgr.reinit(input, "mode_switch");
    (mgr.has_pending_apply(), note)
}

/// A load that fails, for whatever reason, changes neither the settings in use nor what is
/// on its way to the engine.
pub proof fn failure_keeps_settings(m: ManagerModel, input: LoadInputModel, reason: Seq<char>)
    requires
        m.loaded(input, reason).1 is Failed,
    ensures
        ({
            let after = m.loaded(input, reason).0;
            after.current == m.current && after.pending == m.pending && after.in_flight
                == m.in_flight && after.next_revision == m.next_revision
        }),
{
}

/// The same body again is not taken over a second time: its number stays.
pub proof fn same_body_is_not_taken_twice(
    m: ManagerModel,
    bytes: Seq<u8>,
    first: AppConfig,
    again: Result<AppConfig, Seq<char>>,
    reason: Seq<char>,
)
    requires
        !m.has_body(bytes),
    ensures
        ({
            let once = m.loaded(LoadInputModel::Body { bytes, parsed: Ok(first) }, reason).0;
            let twice = once.loaded(LoadInputModel::Body { bytes, parsed: again }, reason);
            twice.1 is Unchanged && twice.0.current == once.current && twice.0.pending
                == once.pending
        }),
{
}

/// Every body that is taken over has the number after the one before it, and a load that
/// takes nothing over leaves the number.
pub proof fn numbers_grow(m: ManagerModel, input: LoadInputModel, reason: Seq<char>)
    requires
        m.wf(),
        m.current.revision < u64::MAX,
    ensures
        ({
            let (after, outcome, _) = m.loaded(input, reason);
            &&& after.wf()
            &&& outcome is Updated ==> after.current.revision == m.current.revision + 1
            &&& outcome is Updated ==> after.current.id() != m.current.id()
            &&& !(outcome is Updated) ==> after.current == m.current
        }),
{
}

impl LoadInputModel {
    /// What a body says is what `reading` finds in it.
    pub open spec fn says(self, reading: BodyReading) -> bool {
        self matches LoadInputModel::Body { bytes, parsed } ==> parsed == reading(bytes)
    }
}

/// The settings after some loads, each with its reason.
pub open spec fn after_loads(m: ManagerModel, loads: Seq<(LoadInputModel, Seq<char>)>) -> ManagerModel
    decreases loads.len(),
{
    if loads.len() == 0 {
        m
    } else {
        after_loads(m, loads.drop_last()).loaded(loads.last().0, loads.last().1).0
    }
}

/// However often the file is read, the settings in use are those that the body in use says,
/// or the usual ones where none was ever taken over; digest and text for the engine are
/// theirs.
pub proof fn settings_are_of_their_body(
    m: ManagerModel,
    loads: Seq<(LoadInputModel, Seq<char>)>,
    reading: BodyReading,
)
    requires
        m.wf(),
        m.current.says(reading),
        forall|i: int| 0 <= i < loads.len() ==> (#[trigger] loads[i]).0.says(reading),
    ensures
        after_loads(m, loads).wf(),
        after_loads(m, loads).current.says(reading),
    decreases loads.len(),
{
    if loads.len() > 0 {
        let before = loads.drop_last();
        assert forall|i: int| 0 <= i < before.len() implies (#[trigger] before[i]).0.says(
            reading,
        ) by {
            assert(before[i] == loads[i]);
        }
        settings_are_of_their_body(m, before, reading);
        assert(loads[loads.len() - 1].0.says(reading));
    }
}

/// The answer to a body that is no longer in use changes nothing of what the engine has to
/// be told, even where the file says the same as then.
pub proof fn late_answer_clears_nothing(
    m: ManagerModel,
    sent: ApplyIdModel,
    outcome: ApplyOutcome,
)
    requires
        m.wf(),
        sent.revision < m.current.revision,
    ensures
        answered(m, sent, outcome).0.pending == m.pending,
        !answered(m, sent, outcome).1,
{
}

/// A failure of the connection leaves the mark; any other answer to the body in use takes
/// it away.
pub proof fn answer_to_body_in_use(m: ManagerModel, outcome: ApplyOutcome)
    requires
        m.wf(),
        m.pending is Some,
    ensures
        answered(m, m.current.id(), outcome).1 == !(outcome is CommFailure),
        answered(m, m.current.id(), outcome).0.pending is None <==> !(outcome is CommFailure),
{
}

/// Whatever changes what the engine is told is marked to be sent, and stays marked while
/// bodies that change nothing of it are taken over.
pub proof fn change_is_marked(
    m: ManagerModel,
    bytes: Seq<u8>,
    config: AppConfig,
    reason: Seq<char>,
)
    requires
        m.wf(),
        !m.has_body(bytes),
    ensures
        ({
            let after = m.loaded(LoadInputModel::Body { bytes, parsed: Ok(config) }, reason).0;
            after.pending == (if engine_json_of(config) != engine_json_of(m.current.app_config)
                || m.pending is Some {
                Some(after.current.id())
            } else {
                None
            })
        }),
{
}

/// A failure is warned about once: the same failure again is not, and after a load that
/// succeeded it is again.
pub proof fn failure_is_warned_once(
    m: ManagerModel,
    error: Seq<char>,
    good: Seq<u8>,
    config: AppConfig,
    reason: Seq<char>,
)
    ensures
        ({
            let input = LoadInputModel::Unreadable { error };
            let once = m.loaded(input, reason).0;
            let read = once.loaded(LoadInputModel::Body { bytes: good, parsed: Ok(config) }, reason);
            &&& once.loaded(input, reason).2 is Still
            &&& read.2 is Recovered
            &&& read.0.loaded(input, reason).2 is Warn
        }),
{
}

/// A body that was not in use and can be understood is in use after it was read, and only such a
/// body is taken over.
pub proof fn new_body_is_taken_over(
    m: ManagerModel,
    bytes: Seq<u8>,
    parsed: Result<AppConfig, Seq<char>>,
    reason: Seq<char>,
)
    ensures
        ({
            let (after, outcome, _) = m.loaded(LoadInputModel::Body { bytes, parsed }, reason);
            &&& outcome is Updated <==> !m.has_body(bytes) && parsed is Ok
            &&& outcome is Unchanged <==> m.has_body(bytes)
            &&& outcome is Updated ==> after.has_body(bytes) && after.current.app_config
                == parsed->Ok_0 && after.current.revision == m.next_revision
                && after.last_failure is None && after.in_flight == m.in_flight && after.path
                == m.path
            &&& outcome is Unchanged ==> after == (ManagerModel { last_failure: None, ..m })
            &&& outcome is Failed ==> after.last_failure == Some(parsed->Err_0)
        }),
{
}

/// What cannot be read is never taken over, and the failure is remembered.
pub proof fn unreadable_file_is_a_failure(m: ManagerModel, error: Seq<char>, reason: Seq<char>)
    ensures
        ({
            let (after, outcome, note) = m.loaded(LoadInputModel::Unreadable { error }, reason);
            &&& outcome is Failed
            &&& after == (ManagerModel { last_failure: Some(error), ..m })
            &&& note is Warn <==> m.last_failure != Some(error)
        }),
{
}

/// An answer ends the wait for that body and for no other.
pub proof fn answer_ends_the_wait(m: ManagerModel, sent: ApplyIdModel, outcome: ApplyOutcome)
    ensures
        ({
            let after = answered(m, sent, outcome).0;
            &&& m.in_flight is Some && (m.in_flight->0).0 == sent ==> after.in_flight is None
            &&& m.in_flight is Some && (m.in_flight->0).0 != sent ==> after.in_flight
                == m.in_flight
            &&& after == (ManagerModel {
                in_flight: after.in_flight,
                pending: after.pending,
                ..m
            })
            &&& answered(m, sent, outcome).1 <==> m.pending is Some && after.pending is None
        }),
{
}

/// Numbers grow by one up to the largest, which stays.
pub proof fn numbers_follow_each_other(revision: u64)
    ensures
        revision < u64::MAX ==> next_number(revision) == revision + 1,
        next_number(u64::MAX) == u64::MAX,
{
}

} // verus!
