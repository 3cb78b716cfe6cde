use solana_cli::lifecycle::{AccountKind, Action, Event, Phase, Stage, Upload, UploadError};

#[test]
fn program_upload_runs_every_phase() {
    let (u, a) = Upload::start(AccountKind::Program);
    assert_eq!(a, Action::Run(Phase::Allocate));
    let (u, a) = u.step(Event::Confirmed);
    assert_eq!(a, Action::Run(Phase::Write));
    let (u, a) = u.step(Event::WritesReported { failed: 0, total: 12 });
    assert_eq!(a, Action::Run(Phase::Finalize));
    let (u, a) = u.step(Event::Confirmed);
    assert_eq!(a, Action::Run(Phase::AuthorityTransfer));
    let (u, a) = u.step(Event::Confirmed);
    assert_eq!(a, Action::Complete);
    assert_eq!(u.stage, Stage::Done);
    let (_, a) = u.step(Event::Confirmed);
    assert_eq!(a, Action::Idle);
}

#[test]
fn proposal_upload_ends_at_finalize() {
    let (u, _) = Upload::start(AccountKind::Proposal);
    let (u, _) = u.step(Event::Confirmed);
    let (u, a) = u.step(Event::WritesReported { failed: 0, total: 1 });
    assert_eq!(a, Action::Run(Phase::Finalize));
    let (u, a) = u.step(Event::Confirmed);
    assert_eq!(a, Action::Complete);
    assert_eq!(u.stage, Stage::Done);
}

#[test]
fn buffer_upload_skips_finalize() {
    let (u, _) = Upload::start(AccountKind::Buffer);
    let (u, _) = u.step(Event::Confirmed);
    let (u, a) = u.step(Event::WritesReported { failed: 0, total: 4 });
    assert_eq!(a, Action::Run(Phase::AuthorityTransfer));
    let (_, a) = u.step(Event::Confirmed);
    assert_eq!(a, Action::Complete);
}

#[test]
fn failed_writes_halt_before_finalize() {
    let (u, _) = Upload::start(AccountKind::Proposal);
    let (u, _) = u.step(Event::Confirmed);
    assert_eq!(u.stage, Stage::Running(Phase::Write));
    let (u, a) = u.step(Event::WritesReported { failed: 2, total: 50 });
    assert_eq!(a, Action::Abort(UploadError::PartialWrite { failed: 2, total: 50 }));
    assert_eq!(u.stage, Stage::Failed);
    let (u, a) = u.step(Event::Confirmed);
    assert_eq!(a, Action::Idle);
    assert_eq!(u.stage, Stage::Failed);
}

#[test]
fn rejected_allocation_stops_everything() {
    let (u, _) = Upload::start(AccountKind::Program);
    let (u, a) = u.step(Event::Rejected("insufficient funds".to_string()));
    assert_eq!(
        a,
        Action::Abort(UploadError::Phase {
            phase: Phase::Allocate,
            reason: "insufficient funds".to_string()
        })
    );
    for ev in [Event::Confirmed, Event::WritesReported { failed: 0, total: 3 }] {
        let (next, a) = u.step(ev);
        assert_eq!(a, Action::Idle);
        assert_eq!(next.stage, Stage::Failed);
    }
}

#[test]
fn rejected_finalize_is_tagged() {
    let (u, _) = Upload::start(AccountKind::Proposal);
    let (u, _) = u.step(Event::Confirmed);
    let (u, _) = u.step(Event::WritesReported { failed: 0, total: 2 });
    let (_, a) = u.step(Event::Rejected("bad".to_string()));
    assert_eq!(
        a,
        Action::Abort(UploadError::Phase { phase: Phase::Finalize, reason: "bad".to_string() })
    );
}

#[test]
fn next_phase_by_kind() {
    let (p, _) = Upload::start(AccountKind::Proposal);
    assert_eq!(p.next_phase(Phase::Finalize), None);
    assert_eq!(p.next_phase(Phase::Allocate), Some(Phase::Write));
    let (b, _) = Upload::start(AccountKind::Program);
    assert_eq!(b.next_phase(Phase::Finalize), Some(Phase::AuthorityTransfer));
    assert_eq!(b.next_phase(Phase::AuthorityTransfer), None);
}

#[test]
fn events_must_fit_the_phase() {
    let (u, _) = Upload::start(AccountKind::Proposal);
    let (_, a) = u.step(Event::WritesReported { failed: 3, total: 5 });
    assert_eq!(a, Action::Abort(UploadError::UnexpectedEvent { phase: Phase::Allocate }));
    let (u, _) = u.step(Event::Confirmed);
    let (w, a) = u.step(Event::Confirmed);
    assert_eq!(a, Action::Abort(UploadError::UnexpectedEvent { phase: Phase::Write }));
    assert_eq!(w.stage, Stage::Failed);
}
