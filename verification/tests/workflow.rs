use deepl_cli::args::DocOpt;
use deepl_cli::errors::ConfigError;
use deepl_cli::workflow::{
    classify, plan, timeout_message, Action, DocumentHandle, DocumentWorkflow, Event, Formality,
    JobState, JobStatus, Note, PollVerdict, RetryPolicy, RunOutcome, WorkflowState,
};

fn empty_opts() -> DocOpt {
    DocOpt {
        source: None,
        target: None,
        file: None,
        filename: None,
        out_file: None,
        formality: None,
        glossary: None,
        doc_id: None,
        key: None,
    }
}

fn fresh_opts() -> DocOpt {
    DocOpt {
        target: Some("EN-GB".to_string()),
        file: Some("report.docx".to_string()),
        ..empty_opts()
    }
}

fn resume_opts() -> DocOpt {
    DocOpt {
        doc_id: Some("doc-1".to_string()),
        key: Some("key-1".to_string()),
        ..empty_opts()
    }
}

fn status(state: JobState) -> JobStatus {
    JobStatus { state, error_message: None }
}

/// Run the polling phase and return (queries, waits, final workflow, notes).
fn poll(w: DocumentWorkflow, replies: Vec<JobStatus>) -> (usize, Vec<u64>, DocumentWorkflow, Vec<Note>) {
    let (after, notes, queries, waits) = w.replay_polls(&replies);
    (queries, waits, after, notes)
}

fn planned(opts: DocOpt) -> DocumentWorkflow {
    plan(opts, RetryPolicy::standard()).expect("plan").0
}

#[test]
fn resume_goes_straight_to_polling() {
    // Resuming performs zero submissions: the first action already polls.
    let (w, notes) = plan(resume_opts(), RetryPolicy::standard()).expect("plan");
    assert!(notes.is_empty());
    match w.next_action() {
        Action::WaitThenPoll { seconds, handle } => {
            assert_eq!(seconds, 2);
            assert_eq!(handle.id, "doc-1");
            assert_eq!(handle.key, "key-1");
        }
        _ => panic!("expected an immediate poll"),
    }
}

#[test]
fn resume_without_key_is_config_error() {
    let opts = DocOpt { doc_id: Some("doc-1".to_string()), ..empty_opts() };
    let r = plan(opts, RetryPolicy::standard());
    assert_eq!(r.err(), Some(ConfigError::MissingDocumentKey));
    assert_eq!(
        ConfigError::MissingDocumentKey.message(),
        "missing required document key"
    );
}

#[test]
fn fresh_path_validates_before_any_network_step() {
    assert_eq!(
        plan(empty_opts(), RetryPolicy::standard()).err(),
        Some(ConfigError::MissingTargetLang)
    );
    let bad_target = DocOpt { target: Some("XX".to_string()), ..empty_opts() };
    assert_eq!(
        plan(bad_target, RetryPolicy::standard()).err(),
        Some(ConfigError::InvalidTargetLang)
    );
    let no_file = DocOpt { target: Some("EN-GB".to_string()), ..empty_opts() };
    assert_eq!(
        plan(no_file, RetryPolicy::standard()).err(),
        Some(ConfigError::MissingFilePath)
    );
    let bad_source = DocOpt { source: Some("QQ".to_string()), ..fresh_opts() };
    assert_eq!(
        plan(bad_source, RetryPolicy::standard()).err(),
        Some(ConfigError::InvalidSourceLang)
    );
    assert_eq!(
        ConfigError::MissingTargetLang.message(),
        "missing required target language"
    );
    assert_eq!(ConfigError::InvalidTargetLang.message(), "invalid target lang");
    assert_eq!(
        ConfigError::MissingFilePath.message(),
        "missing document file path"
    );
}

#[test]
fn fresh_path_submits_the_validated_request() {
    let opts = DocOpt {
        source: Some("de".to_string()),
        filename: Some("report".to_string()),
        formality: Some("prefer_more".to_string()),
        glossary: Some("g-9".to_string()),
        out_file: Some("out.docx".to_string()),
        ..fresh_opts()
    };
    let (w, notes) = plan(opts, RetryPolicy::standard()).expect("plan");
    assert_eq!(notes.len(), 1);
    assert!(matches!(notes[0], Note::UploadStarted));
    match w.next_action() {
        Action::Submit(req) => {
            assert_eq!(req.target, "EN-GB");
            assert_eq!(req.file, "report.docx");
            assert_eq!(req.source.as_deref(), Some("de"));
            assert_eq!(req.filename.as_deref(), Some("report"));
            assert_eq!(req.formality, Some(Formality::PreferMore));
            assert_eq!(req.glossary_id.as_deref(), Some("g-9"));
        }
        _ => panic!("expected a submission"),
    }
}

#[test]
fn unknown_formality_means_default() {
    let opts = DocOpt { formality: Some("casual".to_string()), ..fresh_opts() };
    let (w, _) = plan(opts, RetryPolicy::standard()).expect("plan");
    match w.next_action() {
        Action::Submit(req) => assert_eq!(req.formality, Some(Formality::Default)),
        _ => panic!("expected a submission"),
    }
}

#[test]
fn handle_echoed_before_polling_output() {
    let (w, mut notes) = plan(fresh_opts(), RetryPolicy::standard()).expect("plan");
    let handle = DocumentHandle { id: "d-7".to_string(), key: "k-7".to_string() };
    let (w, mut submit_notes) = w.step(Event::Submitted(handle));
    notes.append(&mut submit_notes);
    let (_, _, _, mut poll_notes) = poll(w, vec![status(JobState::Queued), status(JobState::Done)]);
    notes.append(&mut poll_notes);
    let handle_at = notes
        .iter()
        .position(|n| matches!(n, Note::HandleIssued { .. }))
        .expect("the handle must be echoed");
    match &notes[handle_at] {
        Note::HandleIssued { id, key } => {
            assert_eq!(id, "d-7");
            assert_eq!(key, "k-7");
        }
        _ => unreachable!(),
    }
    for (i, n) in notes.iter().enumerate() {
        if matches!(n, Note::PollStatus(_)) {
            assert!(handle_at < i);
        }
    }
}

#[test]
fn done_on_first_attempt_polls_once() {
    let (q, waits, after, _) = poll(planned(resume_opts()), vec![status(JobState::Done)]);
    assert_eq!(q, 1);
    assert_eq!(waits, vec![2]);
    assert!(matches!(after.next_action(), Action::Fetch { .. }));
}

#[test]
fn done_on_second_attempt_polls_twice() {
    let replies = vec![status(JobState::Translating), status(JobState::Done)];
    let (q, waits, after, _) = poll(planned(resume_opts()), replies);
    assert_eq!(q, 2);
    assert_eq!(waits, vec![2, 4]);
    assert!(matches!(after.state, WorkflowState::Fetching { .. }));
}

#[test]
fn done_on_third_attempt_polls_three_times() {
    let replies = vec![
        status(JobState::Queued),
        status(JobState::Translating),
        status(JobState::Done),
    ];
    let (q, waits, after, _) = poll(planned(resume_opts()), replies);
    assert_eq!(q, 3);
    assert_eq!(waits, vec![2, 4, 8]);
    assert!(matches!(after.state, WorkflowState::Fetching { .. }));
}

#[test]
fn replies_after_a_terminal_status_are_never_queried() {
    let replies = vec![
        status(JobState::Done),
        status(JobState::Translating),
        status(JobState::Translating),
    ];
    let (q, waits, _, _) = poll(planned(resume_opts()), replies);
    assert_eq!(q, 1);
    assert_eq!(waits, vec![2]);
}

#[test]
fn three_nonterminal_replies_time_out() {
    let replies = vec![
        status(JobState::Queued),
        status(JobState::Translating),
        status(JobState::Translating),
    ];
    let (q, waits, after, notes) = poll(planned(resume_opts()), replies);
    assert_eq!(q, 3);
    assert_eq!(waits, vec![2, 4, 8]);
    assert!(matches!(
        after.state,
        WorkflowState::Finished(RunOutcome::TimedOut)
    ));
    // No download is ever started on a timeout.
    assert!(notes.iter().all(|n| !matches!(n, Note::FetchStarted | Note::Saved(_))));
    assert!(notes.iter().any(|n| matches!(n, Note::RetryGuidance)));
    assert!(matches!(after.next_action(), Action::Halt(RunOutcome::TimedOut)));
    assert_eq!(timeout_message(), "Poll status timeout");
}

#[test]
fn reported_error_fails_immediately_with_exact_message() {
    let replies = vec![
        status(JobState::Queued),
        JobStatus {
            state: JobState::Error,
            error_message: Some("source file corrupted".to_string()),
        },
        status(JobState::Done),
    ];
    let (q, _, after, _) = poll(planned(resume_opts()), replies);
    assert_eq!(q, 2);
    match after.state {
        WorkflowState::Finished(RunOutcome::Failed { message }) => {
            assert_eq!(message, "source file corrupted");
        }
        _ => panic!("expected a failed run"),
    }
}

#[test]
fn error_state_without_message_is_not_terminal() {
    // Only a present error message ends the run early.
    let replies = vec![
        JobStatus { state: JobState::Error, error_message: None },
        status(JobState::Done),
    ];
    let (q, _, after, _) = poll(planned(resume_opts()), replies);
    assert_eq!(q, 2);
    assert!(matches!(after.state, WorkflowState::Fetching { .. }));
}

#[test]
fn done_with_message_still_completes() {
    let replies = vec![JobStatus {
        state: JobState::Done,
        error_message: Some("ignored".to_string()),
    }];
    let (q, _, after, _) = poll(planned(resume_opts()), replies);
    assert_eq!(q, 1);
    assert!(matches!(after.state, WorkflowState::Fetching { .. }));
}

#[test]
fn classify_orders_completion_before_error() {
    assert!(matches!(
        classify(JobStatus { state: JobState::Done, error_message: Some("m".to_string()) }),
        PollVerdict::Complete
    ));
    match classify(JobStatus {
        state: JobState::Translating,
        error_message: Some("m".to_string()),
    }) {
        PollVerdict::Faulted(m) => assert_eq!(m, "m"),
        _ => panic!("expected a fault"),
    }
    assert!(matches!(
        classify(status(JobState::Queued)),
        PollVerdict::InProgress
    ));
}

#[test]
fn fetch_uses_the_requested_out_file() {
    let opts = DocOpt { out_file: Some("dest.pdf".to_string()), ..resume_opts() };
    let w = planned(opts);
    let (_, _, after, _) = poll(w, vec![status(JobState::Done)]);
    match after.next_action() {
        Action::Fetch { handle, out_file } => {
            assert_eq!(handle.id, "doc-1");
            assert_eq!(out_file.as_deref(), Some("dest.pdf"));
        }
        _ => panic!("expected a fetch"),
    }
}

#[test]
fn fetched_event_completes_the_run() {
    let (_, _, after, _) = poll(planned(resume_opts()), vec![status(JobState::Done)]);
    let (done, notes) = after.step(Event::Fetched("out/translated.docx".to_string()));
    match &done.state {
        WorkflowState::Finished(RunOutcome::Complete { location }) => {
            assert_eq!(location, "out/translated.docx");
        }
        _ => panic!("expected a completed run"),
    }
    assert!(matches!(&notes[..], [Note::Saved(l)] if l == "out/translated.docx"));
}

#[test]
fn collaborator_failures_fail_the_run() {
    let (w, _) = plan(fresh_opts(), RetryPolicy::standard()).expect("plan");
    let (failed, notes) = w.step(Event::SubmitFailed("401 unauthorized".to_string()));
    assert!(notes.is_empty());
    assert!(matches!(
        failed.state,
        WorkflowState::Finished(RunOutcome::Failed { .. })
    ));

    let w = planned(resume_opts());
    let (failed, _) = w.step(Event::PollFailed("connection reset".to_string()));
    match failed.state {
        WorkflowState::Finished(RunOutcome::Failed { message }) => {
            assert_eq!(message, "connection reset");
        }
        _ => panic!("expected a failed run"),
    }

    let (_, _, after, _) = poll(planned(resume_opts()), vec![status(JobState::Done)]);
    let (failed, _) = after.step(Event::FetchFailed("disk full".to_string()));
    assert!(matches!(
        failed.state,
        WorkflowState::Finished(RunOutcome::Failed { .. })
    ));
}
