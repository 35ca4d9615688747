use vstd::prelude::*;

use crate::error::{ExitAltScreenBufError, RunError, RunInAltScreenBufError};
use crate::report::{outcome_code, outcome_notices, Notice};
use crate::session::{
    Action, ExitStatus, InputEvent, PauseConfig, Reply, RunInAltScreenBufOutcome, Session,
};

verus! {

/// The state reached from `s` after the driver hands back `replies` in turn.
pub open spec fn follow(s: Session, replies: Seq<Reply>) -> Session
    decreases replies.len(),
{
    if replies.len() == 0 {
        s
    } else {
        follow(s.next(replies[0]), replies.drop_first())
    }
}

/// The operations that `s` asks for, one before each of `replies`.
pub open spec fn requested(s: Session, replies: Seq<Reply>) -> Seq<Action>
    decreases replies.len(),
{
    if replies.len() == 0 {
        Seq::empty()
    } else {
        seq![s.pending()] + requested(s.next(replies[0]), replies.drop_first())
    }
}

/// The outcome of a finished session.
pub open spec fn outcome_of(s: Session) -> RunInAltScreenBufOutcome
    recommends
        s is Finished,
{
    s->outcome
}

/// A finished session stays finished and asks for nothing more.
pub proof fn lemma_finished_is_final(s: Session, replies: Seq<Reply>)
    requires
        s is Finished,
    ensures
        follow(s, replies) == s,
        forall|i: int| 0 <= i < replies.len() ==> #[trigger] requested(s, replies)[i] == Action::Finish,
        requested(s, replies).len() == replies.len(),
    decreases replies.len(),
{
    if replies.len() > 0 {
        lemma_finished_is_final(s, replies.drop_first());
        assert(s.next(replies[0]) == s);
    }
}

/// If entering the alternate screen fails, the command is never run, nothing
/// is cleaned up, and the outcome reports that failure alone, whatever the
/// driver says afterwards.
pub proof fn lemma_no_run_without_alt_screen(
    pause: Option<PauseConfig>,
    source: std::io::Error,
    rest: Seq<Reply>,
)
    ensures
        ({
            let replies = seq![Reply::Failed(source)] + rest;
            let s = Session::EnteringAltScreen { pause };
            &&& !requested(s, replies).contains(Action::RunChild)
            &&& follow(s, replies) is Finished
            &&& outcome_of(follow(s, replies)) == (RunInAltScreenBufOutcome {
                run_res: Err(RunInAltScreenBufError::EnterAltScreenBuf { source }),
                exit_raw_mode_after_pause_err: Ok(()),
                exit_alt_screen_err: Ok(()),
            })
        }),
{
    let replies = seq![Reply::Failed(source)] + rest;
    let s = Session::EnteringAltScreen { pause };
    let f = s.next(replies[0]);
    assert(replies.drop_first() =~= rest);
    lemma_finished_is_final(f, rest);
    let req = requested(s, replies);
    assert(req =~= seq![Action::EnterAltScreen] + requested(f, rest));
    if req.contains(Action::RunChild) {
        let i = choose|i: int| 0 <= i < req.len() && req[i] == Action::RunChild;
        if i > 0 {
            assert(requested(f, rest)[i - 1] == Action::Finish);
        }
    }
}

/// The reply to leaving the alternate screen, as it stands in the outcome.
pub open spec fn alt_screen_exit_result(reply: Reply) -> Result<(), ExitAltScreenBufError> {
    match reply {
        Reply::Failed(source) => Err(ExitAltScreenBufError { source }),
        _ => Ok(()),
    }
}

/// If the command cannot be run, the alternate screen is still left, exactly
/// once, and what came of leaving it is reported beside the run failure.
pub proof fn lemma_alt_screen_left_after_run_failure(
    pause: Option<PauseConfig>,
    source: RunError,
    leave: Reply,
)
    requires
        leave is Done || leave is Failed,
    ensures
        ({
            let replies = seq![Reply::Done, Reply::RunFailed(source), leave];
            let s = Session::EnteringAltScreen { pause };
            &&& requested(s, replies) == seq![Action::EnterAltScreen, Action::RunChild, Action::LeaveAltScreen]
            &&& follow(s, replies) is Finished
            &&& outcome_of(follow(s, replies)) == (RunInAltScreenBufOutcome {
                run_res: Err(RunInAltScreenBufError::Run { source }),
                exit_raw_mode_after_pause_err: Ok(()),
                exit_alt_screen_err: alt_screen_exit_result(leave),
            })
        }),
{
    let replies = seq![Reply::Done, Reply::RunFailed(source), leave];
    let s0 = Session::EnteringAltScreen { pause };
    let s1 = s0.next(replies[0]);
    let s2 = s1.next(replies[1]);
    let s3 = s2.next(replies[2]);
    let r1 = replies.drop_first();
    let r2 = r1.drop_first();
    let r3 = r2.drop_first();
    assert(r1 =~= seq![Reply::RunFailed(source), leave]);
    assert(r2 =~= seq![leave]);
    assert(r3 =~= Seq::<Reply>::empty());
    assert(requested(s3, r3) == Seq::<Action>::empty());
    assert(follow(s3, r3) == s3);
    assert(requested(s2, r2) == seq![s2.pending()] + requested(s3, r3));
    assert(requested(s1, r1) == seq![s1.pending()] + requested(s2, r2));
    assert(requested(s0, replies) == seq![s0.pending()] + requested(s1, r1));
    assert(follow(s2, r2) == follow(s3, r3));
    assert(follow(s1, r1) == follow(s2, r2));
    assert(follow(s0, replies) == follow(s1, r1));
    assert(requested(s0, replies) =~= seq![Action::EnterAltScreen, Action::RunChild, Action::LeaveAltScreen]);
}

/// Replies that each carry one input event, in turn.
pub open spec fn event_replies(events: Seq<InputEvent>) -> Seq<Reply> {
    events.map_values(|e: InputEvent| Reply::Event(e))
}

/// During the pause, any number of non-key events followed by one key event
/// ends the wait exactly once: one read per event, and the next operation is
/// to leave raw mode, with the pause reported as done.
pub proof fn lemma_pause_ends_at_first_key(exit_status: ExitStatus, events: Seq<InputEvent>)
    requires
        forall|i: int| 0 <= i < events.len() ==> !(#[trigger] events[i] is Key),
    ensures
        ({
            let replies = event_replies(events.push(InputEvent::Key));
            let s = Session::ReadingEvents { exit_status };
            &&& requested(s, replies) == Seq::new(events.len() + 1, |i: int| Action::ReadEvent)
            &&& follow(s, replies) == (Session::LeavingRawMode { exit_status, pause_res: Ok(()) })
            &&& follow(s, replies).pending() == Action::LeaveRawMode
        }),
    decreases events.len(),
{
    let replies = event_replies(events.push(InputEvent::Key));
    let s = Session::ReadingEvents { exit_status };
    if events.len() == 0 {
        assert(replies =~= seq![Reply::Event(InputEvent::Key)]);
        assert(replies.drop_first() =~= Seq::<Reply>::empty());
        let n = s.next(replies[0]);
        assert(n == (Session::LeavingRawMode { exit_status, pause_res: Ok(()) }));
        assert(requested(n, replies.drop_first()) == Seq::<Action>::empty());
        assert(follow(n, replies.drop_first()) == n);
        assert(requested(s, replies) =~= Seq::new(1, |i: int| Action::ReadEvent));
    } else {
        let tail = events.drop_first();
        assert forall|i: int| 0 <= i < tail.len() implies !(#[trigger] tail[i] is Key) by {
            assert(tail[i] == events[i + 1]);
        }
        lemma_pause_ends_at_first_key(exit_status, tail);
        assert(replies.drop_first() =~= event_replies(tail.push(InputEvent::Key)));
        assert(replies[0] == Reply::Event(events[0]));
        assert(!(events[0] is Key));
        assert(s.next(replies[0]) == s);
        assert(requested(s, replies) =~= Seq::new(events.len() + 1, |i: int| Action::ReadEvent));
    }
}

/// The states that a session without a pause can reach.
pub open spec fn unpaused(s: Session) -> bool {
    match s {
        Session::EnteringAltScreen { pause } => pause is None,
        Session::RunningChild { pause } => pause is None,
        Session::LeavingAltScreen { exit_raw_mode_after_pause_err, .. } =>
            exit_raw_mode_after_pause_err is Ok,
        Session::Finished { outcome } => outcome.exit_raw_mode_after_pause_err is Ok,
        _ => false,
    }
}

proof fn lemma_unpaused_run(s: Session, replies: Seq<Reply>)
    requires
        unpaused(s),
    ensures
        unpaused(follow(s, replies)),
        !requested(s, replies).contains(Action::EnterRawMode),
        !requested(s, replies).contains(Action::LeaveRawMode),
    decreases replies.len(),
{
    if replies.len() > 0 {
        let n = s.next(replies[0]);
        assert(unpaused(n));
        lemma_unpaused_run(n, replies.drop_first());
        let req = requested(s, replies);
        assert(req =~= seq![s.pending()] + requested(n, replies.drop_first()));
        assert forall|a: Action| a == Action::EnterRawMode || a == Action::LeaveRawMode implies !req.contains(a) by {
            if req.contains(a) {
                let i = choose|i: int| 0 <= i < req.len() && req[i] == a;
                if i > 0 {
                    assert(requested(n, replies.drop_first())[i - 1] == a);
                }
            }
        }
    }
}

/// Without a pause, raw input mode is neither entered nor left, whatever
/// happens, and its slot in the outcome reports success.
pub proof fn lemma_no_pause_no_raw_mode(replies: Seq<Reply>)
    ensures
        ({
            let s = Session::EnteringAltScreen { pause: None };
            &&& !requested(s, replies).contains(Action::EnterRawMode)
            &&& !requested(s, replies).contains(Action::LeaveRawMode)
            &&& follow(s, replies) is Finished ==> outcome_of(follow(s, replies)).exit_raw_mode_after_pause_err is Ok
        }),
{
    lemma_unpaused_run(Session::EnteringAltScreen { pause: None }, replies);
}

/// A command that exits with a code that fits in a byte, run without a pause
/// and with every terminal operation succeeding, returns that very code and
/// has nothing to report.
pub proof fn lemma_plain_run_returns_child_code(c: i32)
    requires
        0 <= c <= 255,
    ensures
        ({
            let replies = seq![Reply::Done, Reply::Exited(ExitStatus::Code(c)), Reply::Done];
            let end = follow(Session::EnteringAltScreen { pause: None }, replies);
            &&& end is Finished
            &&& outcome_code(outcome_of(end)) as int == c
            &&& outcome_notices(outcome_of(end)) == Seq::<Notice>::empty()
        }),
{
    let replies = seq![Reply::Done, Reply::Exited(ExitStatus::Code(c)), Reply::Done];
    let s0 = Session::EnteringAltScreen { pause: None };
    let s1 = s0.next(replies[0]);
    let s2 = s1.next(replies[1]);
    let s3 = s2.next(replies[2]);
    let r1 = replies.drop_first();
    let r2 = r1.drop_first();
    let r3 = r2.drop_first();
    assert(r1 =~= seq![Reply::Exited(ExitStatus::Code(c)), Reply::Done]);
    assert(r2 =~= seq![Reply::Done]);
    assert(r3 =~= Seq::<Reply>::empty());
    assert(follow(s3, r3) == s3);
    assert(follow(s2, r2) == follow(s3, r3));
    assert(follow(s1, r1) == follow(s2, r2));
    assert(follow(s0, replies) == follow(s1, r1));
    let o = outcome_of(s3);
    assert(c % 256 == c) by {
        vstd::arithmetic::div_mod::lemma_small_mod(c as nat, 256);
    }
    assert(outcome_notices(o) =~= Seq::<Notice>::empty());
}

/// Whether every one of `replies` answers the operation pending when it comes.
pub open spec fn answers(s: Session, replies: Seq<Reply>) -> bool
    decreases replies.len(),
{
    replies.len() == 0 || (s.accepts(replies[0]) && answers(s.next(replies[0]), replies.drop_first()))
}

proof fn lemma_alt_screen_left_last(s: Session, replies: Seq<Reply>)
    requires
        answers(s, replies),
        follow(s, replies) is Finished,
        !(s is EnteringAltScreen),
        !(s is Finished),
    ensures
        requested(s, replies).len() == replies.len(),
        replies.len() > 0,
        requested(s, replies).last() == Action::LeaveAltScreen,
        forall|i: int| 0 <= i < replies.len() - 1 ==> #[trigger] requested(s, replies)[i] != Action::LeaveAltScreen,
    decreases replies.len(),
{
    let n = s.next(replies[0]);
    let rest = replies.drop_first();
    let req = requested(s, replies);
    assert(req == seq![s.pending()] + requested(n, rest));
    if s is LeavingAltScreen {
        assert(n is Finished);
        assert(answers(n, rest));
        if rest.len() > 0 {
            assert(!n.accepts(rest[0]));
        }
        assert(rest.len() == 0);
        assert(requested(n, rest) =~= Seq::<Action>::empty());
    } else {
        lemma_alt_screen_left_last(n, rest);
        assert forall|i: int| 0 <= i < replies.len() - 1 implies #[trigger] req[i] != Action::LeaveAltScreen by {
            if i > 0 {
                assert(req[i] == requested(n, rest)[i - 1]);
            }
        }
    }
}

/// Once the alternate screen has been entered, every run that is answered
/// to its end leaves it exactly once, as the last operation, whatever failed
/// before.
pub proof fn lemma_alt_screen_left_once(pause: Option<PauseConfig>, replies: Seq<Reply>)
    requires
        answers(Session::EnteringAltScreen { pause }, replies),
        follow(Session::EnteringAltScreen { pause }, replies) is Finished,
        replies.len() > 0,
        replies[0] is Done,
    ensures
        ({
            let req = requested(Session::EnteringAltScreen { pause }, replies);
            &&& req.len() == replies.len()
            &&& req.last() == Action::LeaveAltScreen
            &&& forall|i: int| 0 <= i < req.len() - 1 ==> #[trigger] req[i] != Action::LeaveAltScreen
        }),
{
    let s = Session::EnteringAltScreen { pause };
    let n = s.next(replies[0]);
    let rest = replies.drop_first();
    let req = requested(s, replies);
    assert(req == seq![s.pending()] + requested(n, rest));
    lemma_alt_screen_left_last(n, rest);
    assert forall|i: int| 0 <= i < req.len() - 1 implies #[trigger] req[i] != Action::LeaveAltScreen by {
        if i > 0 {
            assert(req[i] == requested(n, rest)[i - 1]);
        }
    }
}

proof fn lemma_raw_mode_left_once_from(s: Session, replies: Seq<Reply>)
    requires
        answers(s, replies),
        follow(s, replies) is Finished,
        s is ReadingEvents || s is LeavingRawMode,
    ensures
        requested(s, replies).len() == replies.len(),
        exists|k: int|
            0 <= k < replies.len() && #[trigger] requested(s, replies)[k] == Action::LeaveRawMode
                && forall|i: int| 0 <= i < replies.len() && i != k ==> #[trigger] requested(s, replies)[i] != Action::LeaveRawMode,
    decreases replies.len(),
{
    let n = s.next(replies[0]);
    let rest = replies.drop_first();
    let req = requested(s, replies);
    assert(req == seq![s.pending()] + requested(n, rest));
    if s is LeavingRawMode {
        assert(n is LeavingAltScreen);
        lemma_alt_screen_left_last(n, rest);
        let nreq = requested(n, rest);
        if rest.len() > 1 {
            // leaving the alternate screen finishes the session at once
            let m = n.next(rest[0]);
            assert(answers(n, rest));
            assert(answers(m, rest.drop_first()));
            assert(m is Finished);
            assert(!m.accepts(rest.drop_first()[0]));
        }
        assert(rest.len() == 1);
        assert(nreq[0] == Action::LeaveAltScreen);
        assert(req[0] == Action::LeaveRawMode);
        assert forall|i: int| 0 <= i < replies.len() && i != 0 implies #[trigger] req[i] != Action::LeaveRawMode by {
            assert(req[i] == nreq[i - 1]);
        }
    } else {
        lemma_raw_mode_left_once_from(n, rest);
        let nreq = requested(n, rest);
        let k = choose|k: int|
            0 <= k < rest.len() && #[trigger] nreq[k] == Action::LeaveRawMode
                && forall|i: int| 0 <= i < rest.len() && i != k ==> #[trigger] nreq[i] != Action::LeaveRawMode;
        assert(req[k + 1] == Action::LeaveRawMode);
        assert forall|i: int| 0 <= i < replies.len() && i != k + 1 implies #[trigger] req[i] != Action::LeaveRawMode by {
            if i > 0 {
                assert(req[i] == nreq[i - 1]);
            }
        }
    }
}

/// Once raw mode has been entered for the pause, every run that is answered
/// to its end leaves it exactly once, also when reading input failed.
pub proof fn lemma_raw_mode_left_once(exit_status: ExitStatus, replies: Seq<Reply>)
    requires
        answers(Session::EnteringRawMode { exit_status }, replies),
        follow(Session::EnteringRawMode { exit_status }, replies) is Finished,
        replies.len() > 0,
        replies[0] is Done,
    ensures
        ({
            let req = requested(Session::EnteringRawMode { exit_status }, replies);
            &&& req.len() == replies.len()
            &&& exists|k: int| 0 <= k < req.len() && #[trigger] req[k] == Action::LeaveRawMode
                && forall|i: int| 0 <= i < req.len() && i != k ==> #[trigger] req[i] != Action::LeaveRawMode
        }),
{
    let s = Session::EnteringRawMode { exit_status };
    let n = s.next(replies[0]);
    let rest = replies.drop_first();
    let req = requested(s, replies);
    assert(req == seq![s.pending()] + requested(n, rest));
    lemma_raw_mode_left_once_from(n, rest);
    let nreq = requested(n, rest);
    let k = choose|k: int|
        0 <= k < rest.len() && #[trigger] nreq[k] == Action::LeaveRawMode
            && forall|i: int| 0 <= i < rest.len() && i != k ==> #[trigger] nreq[i] != Action::LeaveRawMode;
    assert(req[k + 1] == Action::LeaveRawMode);
    assert forall|i: int| 0 <= i < req.len() && i != k + 1 implies #[trigger] req[i] != Action::LeaveRawMode by {
        if i > 0 {
            assert(req[i] == nreq[i - 1]);
        }
    }
}

} // verus!
