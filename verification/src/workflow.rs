//! The document translation workflow: a state machine that drives one job
//! from submission (or resumption) through bounded polling to retrieval of
//! the translated artifact.
//!
//! The machine is pure: it owns the retry and backoff policy and every
//! decision, while the surrounding application performs the network calls
//! and the waiting. [`DocumentWorkflow::next_action`] says what to do next;
//! the application does it and reports what happened through
//! [`DocumentWorkflow::step`], which also yields the progress notes to show
//! the operator.

use vstd::prelude::*;
use vstd::string::StringExecFns;

use crate::args::DocOpt;
use crate::errors::ConfigError;
use crate::lang::is_language_code;
use crate::lang::language_code_recognized;
use crate::strutil::str_eq;

verus! {

/// The (id, key) pair addressing one document translation job. Both fields
/// are assigned together by the remote service at submission time, or are
/// supplied together by the operator when resuming; one without the other
/// cannot address a job.
pub struct DocumentHandle {
    pub id: String,
    pub key: String,
}

impl DocumentHandle {
    /// An equal handle.
    pub fn duplicate(&self) -> (r: DocumentHandle)
        ensures
            r == *self,
    {
        DocumentHandle { id: self.id.clone(), key: self.key.clone() }
    }
}

/// Formality preference for the translated text.
#[derive(Clone, Copy, Debug, PartialEq, Eq, Structural)]
pub enum Formality {
    /// The service's default tone.
    Default,
    /// A more formal tone.
    More,
    /// A less formal tone.
    Less,
    /// More formal if the target language supports it.
    PreferMore,
    /// Less formal if the target language supports it.
    PreferLess,
}

/// The formality a command-line value selects; anything unrecognized means
/// the default.
pub open spec fn spec_formality(s: Seq<char>) -> Formality {
    if s == "more"@ {
        Formality::More
    } else if s == "less"@ {
        Formality::Less
    } else if s == "prefer_more"@ {
        Formality::PreferMore
    } else if s == "prefer_less"@ {
        Formality::PreferLess
    } else {
        Formality::Default
    }
}

/// Map a command-line formality value to the preference it selects.
pub fn parse_formality(s: &str) -> (r: Formality)
    ensures
        r == spec_formality(s@),
{
    if str_eq(s, "more") {
        Formality::More
    } else if str_eq(s, "less") {
        Formality::Less
    } else if str_eq(s, "prefer_more") {
        Formality::PreferMore
    } else if str_eq(s, "prefer_less") {
        Formality::PreferLess
    } else {
        Formality::Default
    }
}

/// The formality an optional command-line value selects.
pub open spec fn spec_formality_opt(o: Option<String>) -> Option<Formality> {
    match o {
        None => None,
        Some(f) => Some(spec_formality(f@)),
    }
}

/// A validated fresh-submission request: the target language code is
/// recognized, the input file path is present, and the optional source
/// language code, when given, is recognized.
pub struct SubmissionRequest {
    /// Target language code.
    pub target: String,
    /// Path of the input file.
    pub file: String,
    /// Source language code.
    pub source: Option<String>,
    /// Display name for the uploaded document.
    pub filename: Option<String>,
    /// Formality preference.
    pub formality: Option<Formality>,
    /// Glossary id.
    pub glossary_id: Option<String>,
}

impl SubmissionRequest {
    /// An equal request.
    pub fn duplicate(&self) -> (r: SubmissionRequest)
        ensures
            r == *self,
    {
        SubmissionRequest {
            target: self.target.clone(),
            file: self.file.clone(),
            source: dup_opt_string(&self.source),
            filename: dup_opt_string(&self.filename),
            formality: self.formality,
            glossary_id: dup_opt_string(&self.glossary_id),
        }
    }
}

/// An equal optional string.
fn dup_opt_string(o: &Option<String>) -> (r: Option<String>)
    ensures
        r == *o,
{
    match o {
        None => None,
        Some(s) => Some(s.clone()),
    }
}

/// The bounded polling policy: how many status queries one run may issue,
/// how long to wait before the first, and how the wait grows after every
/// query that does not end the run.
pub struct RetryPolicy {
    /// Status queries allowed per run.
    pub max_attempts: u64,
    /// Time units to wait before the first query.
    pub base_interval: u64,
    /// Factor by which the wait grows after each query.
    pub multiplier: u64,
}

impl RetryPolicy {
    /// A policy must allow at least one attempt.
    pub open spec fn wf(self) -> bool {
        self.max_attempts >= 1
    }

    /// The policy this client ships with: 3 attempts, waits of 2, 4, 8 time
    /// units, bounding the total wait of one run to 14 time units.
    pub open spec fn spec_standard() -> RetryPolicy {
        RetryPolicy { max_attempts: 3, base_interval: 2, multiplier: 2 }
    }

    /// Build the shipped policy.
    pub fn standard() -> (p: RetryPolicy)
        ensures
            p == RetryPolicy::spec_standard(),
            p.wf(),
    {
        RetryPolicy { max_attempts: 3, base_interval: 2, multiplier: 2 }
    }
}

/// The state of a translation job as the service last reported it.
#[derive(Clone, Copy, Debug, PartialEq, Eq, Structural)]
pub enum JobState {
    /// Waiting in line to be processed.
    Queued,
    /// Translation is ongoing.
    Translating,
    /// Translation is done; the document is ready for download.
    Done,
    /// An irrecoverable error occurred while translating.
    Error,
}

/// One status report, produced fresh by each poll and superseded by the
/// next.
pub struct JobStatus {
    /// The reported state.
    pub state: JobState,
    /// Description of the error, when one occurred.
    pub error_message: Option<String>,
}

impl JobStatus {
    /// An equal status report.
    pub fn duplicate(&self) -> (r: JobStatus)
        ensures
            r == *self,
    {
        JobStatus { state: self.state, error_message: dup_opt_string(&self.error_message) }
    }
}

/// What one status report means for the run: terminal success, terminal
/// failure with the service's message, or still in progress.
pub enum PollVerdict {
    /// The job is done; the artifact can be fetched.
    Complete,
    /// The job failed; the service's error message, verbatim.
    Faulted(String),
    /// Neither done nor failed: keep polling.
    InProgress,
}

/// The verdict of a status report: completion wins, then a present error
/// message, else the job is still in progress. A report that carries an
/// error message but already reports completion still counts as complete.
pub open spec fn spec_classify(status: JobStatus) -> PollVerdict {
    if status.state is Done {
        PollVerdict::Complete
    } else if status.error_message is Some {
        PollVerdict::Faulted(status.error_message->0)
    } else {
        PollVerdict::InProgress
    }
}

/// Classify one status report.
pub fn classify(status: JobStatus) -> (v: PollVerdict)
    ensures
        v == spec_classify(status),
{
    match status.state {
        JobState::Done => PollVerdict::Complete,
        _ => match status.error_message {
            Some(m) => PollVerdict::Faulted(m),
            None => PollVerdict::InProgress,
        },
    }
}

/// A line of ordered, operator-visible progress output. The application
/// renders each note as it is produced.
pub enum Note {
    /// The upload is about to start.
    UploadStarted,
    /// The service issued this handle; it is echoed so the operator can
    /// resume the run if the process is lost.
    HandleIssued { id: String, key: String },
    /// One poll attempt reported this state.
    PollStatus(JobState),
    /// Guidance after a timeout: retry later with the echoed id and key,
    /// since the job may still complete server-side.
    RetryGuidance,
    /// The download is about to start.
    FetchStarted,
    /// The translated artifact was written to this location.
    Saved(String),
}

/// How a finished run ended.
pub enum RunOutcome {
    /// The artifact was downloaded to this location.
    Complete { location: String },
    /// The run failed with this message: the service's error message
    /// verbatim, or the message of a collaborator call that failed outright.
    Failed { message: String },
    /// Every allowed attempt returned a non-terminal status. The remote job
    /// is not cancelled; the operator may resume it later by handle.
    TimedOut,
}

impl RunOutcome {
    /// An equal outcome.
    pub fn duplicate(&self) -> (r: RunOutcome)
        ensures
            r == *self,
    {
        match self {
            RunOutcome::Complete { location } => RunOutcome::Complete {
                location: location.clone(),
            },
            RunOutcome::Failed { message } => RunOutcome::Failed { message: message.clone() },
            RunOutcome::TimedOut => RunOutcome::TimedOut,
        }
    }
}

/// Where the workflow stands.
pub enum WorkflowState {
    /// Waiting for the upload collaborator to submit this request. Skipped
    /// entirely when resuming by handle.
    Submitting(SubmissionRequest),
    /// Polling the job addressed by `handle`: `attempts_made` status queries
    /// have been issued, and the next one follows a wait of `next_wait` time
    /// units.
    Polling { handle: DocumentHandle, attempts_made: u64, next_wait: u64 },
    /// The job is done; waiting for the download collaborator.
    Fetching { handle: DocumentHandle },
    /// The run is over.
    Finished(RunOutcome),
}

/// One document translation run: the current state, the operator's choice of
/// output file, and the polling policy.
pub struct DocumentWorkflow {
    pub state: WorkflowState,
    pub out_file: Option<String>,
    pub policy: RetryPolicy,
}

impl DocumentWorkflow {
    /// The machine never records more attempts than the policy allows.
    pub open spec fn wf(self) -> bool {
        &&& self.policy.wf()
        &&& (self.state matches WorkflowState::Polling { attempts_made, .. } ==> attempts_made
            < self.policy.max_attempts)
    }
}

/// What the application must do next.
pub enum Action {
    /// Hand this request to the upload collaborator.
    Submit(SubmissionRequest),
    /// Wait `seconds` time units, then query the status of `handle`.
    WaitThenPoll { seconds: u64, handle: DocumentHandle },
    /// Download the artifact of `handle`, to `out_file` if given.
    Fetch { handle: DocumentHandle, out_file: Option<String> },
    /// Stop: the run ended this way.
    Halt(RunOutcome),
}

/// What a collaborator call reported back.
pub enum Event {
    /// The upload succeeded and the service issued this handle.
    Submitted(DocumentHandle),
    /// The upload call failed with this message.
    SubmitFailed(String),
    /// A status query returned this report.
    Polled(JobStatus),
    /// A status query failed outright with this message.
    PollFailed(String),
    /// The download succeeded; the artifact is at this location.
    Fetched(String),
    /// The download call failed with this message.
    FetchFailed(String),
}

/// The wait after `wait` when the backoff multiplies by `m`, saturating at
/// the largest representable wait.
pub open spec fn spec_next_wait(wait: u64, m: u64) -> u64 {
    if wait * m <= u64::MAX {
        (wait * m) as u64
    } else {
        u64::MAX
    }
}

/// The machine's transition function: the state after an event, and the
/// notes to show the operator, in order. An event that does not answer the
/// pending action changes nothing.
pub open spec fn spec_step(w: DocumentWorkflow, event: Event) -> (DocumentWorkflow, Seq<Note>) {
    match (w.state, event) {
        (WorkflowState::Submitting(_), Event::Submitted(h)) => (
            DocumentWorkflow {
                state: WorkflowState::Polling {
                    handle: h,
                    attempts_made: 0,
                    next_wait: w.policy.base_interval,
                },
                out_file: w.out_file,
                policy: w.policy,
            },
            seq![Note::HandleIssued { id: h.id, key: h.key }],
        ),
        (WorkflowState::Submitting(_), Event::SubmitFailed(m)) => (
            DocumentWorkflow {
                state: WorkflowState::Finished(RunOutcome::Failed { message: m }),
                out_file: w.out_file,
                policy: w.policy,
            },
            Seq::empty(),
        ),
        (WorkflowState::Polling { handle, attempts_made, next_wait }, Event::Polled(status)) => {
            let note = Note::PollStatus(status.state);
            match spec_classify(status) {
                PollVerdict::Complete => (
                    DocumentWorkflow {
                        state: WorkflowState::Fetching { handle },
                        out_file: w.out_file,
                        policy: w.policy,
                    },
                    seq![note, Note::FetchStarted],
                ),
                PollVerdict::Faulted(m) => (
                    DocumentWorkflow {
                        state: WorkflowState::Finished(RunOutcome::Failed { message: m }),
                        out_file: w.out_file,
                        policy: w.policy,
                    },
                    seq![note],
                ),
                PollVerdict::InProgress => {
                    if attempts_made + 1 < w.policy.max_attempts {
                        (
                            DocumentWorkflow {
                                state: WorkflowState::Polling {
                                    handle,
                                    attempts_made: (attempts_made + 1) as u64,
                                    next_wait: spec_next_wait(next_wait, w.policy.multiplier),
                                },
                                out_file: w.out_file,
                                policy: w.policy,
                            },
                            seq![note],
                        )
                    } else {
                        (
                            DocumentWorkflow {
                                state: WorkflowState::Finished(RunOutcome::TimedOut),
                                out_file: w.out_file,
                                policy: w.policy,
                            },
                            seq![note, Note::RetryGuidance],
                        )
                    }
                },
            }
        },
        (WorkflowState::Polling { .. }, Event::PollFailed(m)) => (
            DocumentWorkflow {
                state: WorkflowState::Finished(RunOutcome::Failed { message: m }),
                out_file: w.out_file,
                policy: w.policy,
            },
            Seq::empty(),
        ),
        (WorkflowState::Fetching { .. }, Event::Fetched(location)) => (
            DocumentWorkflow {
                state: WorkflowState::Finished(RunOutcome::Complete { location }),
                out_file: w.out_file,
                policy: w.policy,
            },
            seq![Note::Saved(location)],
        ),
        (WorkflowState::Fetching { .. }, Event::FetchFailed(m)) => (
            DocumentWorkflow {
                state: WorkflowState::Finished(RunOutcome::Failed { message: m }),
                out_file: w.out_file,
                policy: w.policy,
            },
            Seq::empty(),
        ),
        _ => (w, Seq::empty()),
    }
}

/// The action the current state calls for.
pub open spec fn spec_next_action(w: DocumentWorkflow) -> Action {
    match w.state {
        WorkflowState::Submitting(req) => Action::Submit(req),
        WorkflowState::Polling { handle, attempts_made: _, next_wait } => Action::WaitThenPoll {
            seconds: next_wait,
            handle,
        },
        WorkflowState::Fetching { handle } => Action::Fetch { handle, out_file: w.out_file },
        WorkflowState::Finished(outcome) => Action::Halt(outcome),
    }
}

impl DocumentWorkflow {
    /// What the application must do next. The workflow is unchanged; the run
    /// advances when the result of the action is fed to [`Self::step`].
    pub fn next_action(&self) -> (a: Action)
        ensures
            a == spec_next_action(*self),
    {
        match &self.state {
            WorkflowState::Submitting(req) => Action::Submit(req.duplicate()),
            WorkflowState::Polling { handle, attempts_made: _, next_wait } => {
                Action::WaitThenPoll { seconds: *next_wait, handle: handle.duplicate() }
            },
            WorkflowState::Fetching { handle } => Action::Fetch {
                handle: handle.duplicate(),
                out_file: dup_opt_string(&self.out_file),
            },
            WorkflowState::Finished(outcome) => Action::Halt(outcome.duplicate()),
        }
    }

    /// Advance the machine by one event and return the new machine and the
    /// notes to show the operator.
    pub fn step(self, event: Event) -> (r: (DocumentWorkflow, Vec<Note>))
        requires
            self.wf(),
        ensures
            r.0 == spec_step(self, event).0,
            r.1@ == spec_step(self, event).1,
            r.0.wf(),
    {
        let DocumentWorkflow { state, out_file, policy } = self;
        match (state, event) {
            (WorkflowState::Submitting(_), Event::Submitted(h)) => {
                let mut notes: Vec<Note> = Vec::new();
                notes.push(Note::HandleIssued { id: h.id.clone(), key: h.key.clone() });
                (
                    DocumentWorkflow {
                        state: WorkflowState::Polling {
                            handle: h,
                            attempts_made: 0,
                            next_wait: policy.base_interval,
                        },
                        out_file,
                        policy,
                    },
                    notes,
                )
            },
            (WorkflowState::Submitting(_), Event::SubmitFailed(m)) => (
                DocumentWorkflow {
                    state: WorkflowState::Finished(RunOutcome::Failed { message: m }),
                    out_file,
                    policy,
                },
                Vec::new(),
            ),
            (
                WorkflowState::Polling { handle, attempts_made, next_wait },
                Event::Polled(status),
            ) => {
                let note = Note::PollStatus(status.state);
                match classify(status) {
                    PollVerdict::Complete => {
                        let mut notes: Vec<Note> = Vec::new();
                        notes.push(note);
                        notes.push(Note::FetchStarted);
                        (
                            DocumentWorkflow {
                                state: WorkflowState::Fetching { handle },
                                out_file,
                                policy,
                            },
                            notes,
                        )
                    },
                    PollVerdict::Faulted(m) => {
                        let mut notes: Vec<Note> = Vec::new();
                        notes.push(note);
                        (
                            DocumentWorkflow {
                                state: WorkflowState::Finished(
                                    RunOutcome::Failed { message: m },
                                ),
                                out_file,
                                policy,
                            },
                            notes,
                        )
                    },
                    PollVerdict::InProgress => {
                        if attempts_made + 1 < policy.max_attempts {
                            let grown = match next_wait.checked_mul(policy.multiplier) {
                                Some(x) => x,
                                None => u64::MAX,
                            };
                            let mut notes: Vec<Note> = Vec::new();
                            notes.push(note);
                            (
                                DocumentWorkflow {
                                    state: WorkflowState::Polling {
                                        handle,
                                        attempts_made: attempts_made + 1,
                                        next_wait: grown,
                                    },
                                    out_file,
                                    policy,
                                },
                                notes,
                            )
                        } else {
                            let mut notes: Vec<Note> = Vec::new();
                            notes.push(note);
                            notes.push(Note::RetryGuidance);
                            (
                                DocumentWorkflow {
                                    state: WorkflowState::Finished(RunOutcome::TimedOut),
                                    out_file,
                                    policy,
                                },
                                notes,
                            )
                        }
                    },
                }
            },
            (WorkflowState::Polling { .. }, Event::PollFailed(m)) => (
                DocumentWorkflow {
                    state: WorkflowState::Finished(RunOutcome::Failed { message: m }),
                    out_file,
                    policy,
                },
                Vec::new(),
            ),
            (WorkflowState::Fetching { .. }, Event::Fetched(location)) => {
                let mut notes: Vec<Note> = Vec::new();
                notes.push(Note::Saved(location.clone()));
                (
                    DocumentWorkflow {
                        state: WorkflowState::Finished(RunOutcome::Complete { location }),
                        out_file,
                        policy,
                    },
                    notes,
                )
            },
            (WorkflowState::Fetching { .. }, Event::FetchFailed(m)) => (
                DocumentWorkflow {
                    state: WorkflowState::Finished(RunOutcome::Failed { message: m }),
                    out_file,
                    policy,
                },
                Vec::new(),
            ),
            (state, _) => (DocumentWorkflow { state, out_file, policy }, Vec::new()),
        }
    }
}

/// Prepare one run from the command's options: resume by handle when a
/// document id is given (the key must accompany it), otherwise validate a
/// fresh submission. Every error is raised here, before any network
/// interaction. The returned notes precede the first action's output.
pub fn plan(opts: DocOpt, policy: RetryPolicy) -> (r: Result<
    (DocumentWorkflow, Vec<Note>),
    ConfigError,
>)
    requires
        policy.wf(),
    ensures
        opts.doc_id is Some && opts.key is None ==> r == Err::<(DocumentWorkflow, Vec<Note>), _>(
            ConfigError::MissingDocumentKey,
        ),
        opts.doc_id is Some && opts.key is Some ==> (r matches Ok(p) && p.0 == DocumentWorkflow {
            state: WorkflowState::Polling {
                handle: DocumentHandle { id: opts.doc_id->0, key: opts.key->0 },
                attempts_made: 0,
                next_wait: policy.base_interval,
            },
            out_file: opts.out_file,
            policy,
        } && p.1@ =~= Seq::<Note>::empty()),
        opts.doc_id is None && opts.target is None ==> r == Err::<
            (DocumentWorkflow, Vec<Note>),
            _,
        >(ConfigError::MissingTargetLang),
        opts.doc_id is None && opts.target is Some && !is_language_code(opts.target->0@) ==> r
            == Err::<(DocumentWorkflow, Vec<Note>), _>(ConfigError::InvalidTargetLang),
        opts.doc_id is None && opts.target is Some && is_language_code(opts.target->0@)
            && opts.file is None ==> r == Err::<(DocumentWorkflow, Vec<Note>), _>(
            ConfigError::MissingFilePath,
        ),
        opts.doc_id is None && opts.target is Some && is_language_code(opts.target->0@)
            && opts.file is Some && opts.source is Some && !is_language_code(opts.source->0@)
            ==> r == Err::<(DocumentWorkflow, Vec<Note>), _>(ConfigError::InvalidSourceLang),
        opts.doc_id is None && opts.target is Some && is_language_code(opts.target->0@)
            && opts.file is Some && (opts.source is None || is_language_code(opts.source->0@))
            ==> (r matches Ok(p) && p.0 == DocumentWorkflow {
            state: WorkflowState::Submitting(
                SubmissionRequest {
                    target: opts.target->0,
                    file: opts.file->0,
                    source: opts.source,
                    filename: opts.filename,
                    formality: spec_formality_opt(opts.formality),
                    glossary_id: opts.glossary,
                },
            ),
            out_file: opts.out_file,
            policy,
        } && p.1@ =~= seq![Note::UploadStarted]),
        r matches Ok(p) ==> p.0.wf(),
{
    if let Some(id) = opts.doc_id {
        let Some(key) = opts.key else { return Err(ConfigError::MissingDocumentKey) };
        let workflow = DocumentWorkflow {
            state: WorkflowState::Polling {
                handle: DocumentHandle { id, key },
                attempts_made: 0,
                next_wait: policy.base_interval,
            },
            out_file: opts.out_file,
            policy,
        };
        return Ok((workflow, Vec::new()));
    }
    let Some(target) = opts.target else { return Err(ConfigError::MissingTargetLang) };
    if !language_code_recognized(target.as_str()) {
        return Err(ConfigError::InvalidTargetLang);
    }
    let Some(file) = opts.file else { return Err(ConfigError::MissingFilePath) };
    if let Some(s) = &opts.source {
        if !language_code_recognized(s.as_str()) {
            return Err(ConfigError::InvalidSourceLang);
        }
    }
    let formality = match opts.formality {
        None => None,
        Some(f) => Some(parse_formality(f.as_str())),
    };
    let request = SubmissionRequest {
        target,
        file,
        source: opts.source,
        filename: opts.filename,
        formality,
        glossary_id: opts.glossary,
    };
    let workflow = DocumentWorkflow {
        state: WorkflowState::Submitting(request),
        out_file: opts.out_file,
        policy,
    };
    let mut notes: Vec<Note> = Vec::new();
    notes.push(Note::UploadStarted);
    Ok((workflow, notes))
}

/// The fixed message of a run that timed out.
pub fn timeout_message() -> (r: String)
    ensures
        r@ == "Poll status timeout"@,
{
    String::from_str("Poll status timeout")
}

/// The polling phase replayed against a sequence of status reports: the
/// machine afterwards, the notes in order, the number of status queries
/// issued, and the wait taken before each query, in order. Polling stops at
/// the first report that ends it, or when the reports run out.
pub open spec fn run_polls(w: DocumentWorkflow, replies: Seq<JobStatus>) -> (
    DocumentWorkflow,
    Seq<Note>,
    nat,
    Seq<u64>,
)
    decreases replies.len(),
{
    if !(w.state is Polling) || replies.len() == 0 {
        (w, Seq::<Note>::empty(), 0 as nat, Seq::<u64>::empty())
    } else {
        let wait = w.state->Polling_next_wait;
        let stepped = spec_step(w, Event::Polled(replies[0]));
        let rest = run_polls(stepped.0, replies.drop_first());
        (rest.0, stepped.1 + rest.1, 1 + rest.2, seq![wait] + rest.3)
    }
}

impl DocumentWorkflow {
    /// Replay the polling phase against pre-recorded status reports, without
    /// waiting: the machine afterwards, the notes, the number of queries
    /// issued, and the wait each query would have been preceded by. This is
    /// the polling loop with an injected clock and service.
    pub fn replay_polls(self, replies: &Vec<JobStatus>) -> (r: (
        DocumentWorkflow,
        Vec<Note>,
        usize,
        Vec<u64>,
    ))
        requires
            self.wf(),
        ensures
            r.0 == run_polls(self, replies@).0,
            r.1@ == run_polls(self, replies@).1,
            r.2 as nat == run_polls(self, replies@).2,
            r.3@ == run_polls(self, replies@).3,
            r.0.wf(),
    {
        let ghost orig = self;
        let mut cur = self;
        let mut notes: Vec<Note> = Vec::new();
        let mut queries: usize = 0;
        let mut waits: Vec<u64> = Vec::new();
        let mut i: usize = 0;
        proof {
            assert(replies@.skip(0) =~= replies@);
            assert(notes@ + run_polls(cur, replies@).1 =~= run_polls(cur, replies@).1);
            assert(waits@ + run_polls(cur, replies@).3 =~= run_polls(cur, replies@).3);
        }
        while i < replies.len()
            invariant
                i <= replies@.len(),
                queries <= i,
                cur.wf(),
                run_polls(orig, replies@).0 == run_polls(cur, replies@.skip(i as int)).0,
                run_polls(orig, replies@).1 == notes@ + run_polls(cur, replies@.skip(i as int)).1,
                run_polls(orig, replies@).2 == queries + run_polls(
                    cur,
                    replies@.skip(i as int),
                ).2,
                run_polls(orig, replies@).3 == waits@ + run_polls(cur, replies@.skip(i as int)).3,
            ensures
                i == replies@.len() || !(cur.state is Polling),
                queries <= i <= replies@.len(),
                cur.wf(),
                run_polls(orig, replies@).0 == run_polls(cur, replies@.skip(i as int)).0,
                run_polls(orig, replies@).1 == notes@ + run_polls(cur, replies@.skip(i as int)).1,
                run_polls(orig, replies@).2 == queries + run_polls(
                    cur,
                    replies@.skip(i as int),
                ).2,
                run_polls(orig, replies@).3 == waits@ + run_polls(cur, replies@.skip(i as int)).3,
            decreases replies@.len() - i,
        {
            let wait = match &cur.state {
                WorkflowState::Polling { next_wait, .. } => *next_wait,
                _ => {
                    break ;
                },
            };
            proof {
                assert(replies@.skip(i as int)[0] == replies@[i as int]);
                assert(replies@.skip(i as int).drop_first() =~= replies@.skip(i + 1));
            }
            let ghost before = cur;
            let ghost notes_before = notes@;
            let ghost waits_before = waits@;
            let status = replies[i].duplicate();
            let stepped = cur.step(Event::Polled(status));
            cur = stepped.0;
            let mut fresh_notes = stepped.1;
            notes.append(&mut fresh_notes);
            waits.push(wait);
            queries = queries + 1;
            i = i + 1;
            proof {
                let rest = run_polls(cur, replies@.skip(i as int));
                assert(notes_before + (spec_step(before, Event::Polled(replies@[i - 1])).1
                    + rest.1) =~= notes@ + rest.1);
                assert(waits_before + (seq![wait] + rest.3) =~= waits@ + rest.3);
            }
        }
        proof {
            if i == replies.len() {
                assert(replies@.skip(i as int) =~= Seq::<JobStatus>::empty());
            }
            assert(run_polls(cur, replies@.skip(i as int)).0 == cur);
            assert(notes@ + run_polls(cur, replies@.skip(i as int)).1 =~= notes@);
            assert(waits@ + run_polls(cur, replies@.skip(i as int)).3 =~= waits@);
        }
        (cur, notes, queries, waits)
    }
}

/// A whole fresh-path run at the specification level: the submission is
/// answered with handle `h`, then polling proceeds against `replies`. The
/// result is the machine afterwards and the notes in order.
pub open spec fn run_from_submission(
    w: DocumentWorkflow,
    h: DocumentHandle,
    replies: Seq<JobStatus>,
) -> (DocumentWorkflow, Seq<Note>) {
    let first = spec_step(w, Event::Submitted(h));
    let rest = run_polls(first.0, replies);
    (rest.0, first.1 + rest.1)
}

} // verus!
