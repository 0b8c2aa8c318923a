use vstd::prelude::*;

verus! {

/// How one voice-activity score compares with the session threshold.
///
/// A score exactly at the threshold counts as neither speech nor silence.
#[derive(Clone, Copy, Debug, PartialEq, Eq, Structural)]
pub enum Reading {
    Above,
    Below,
    AtThreshold,
}

/// Where a recording session stands in detecting one utterance.
#[derive(Clone, Copy, Debug, PartialEq, Eq, Structural)]
pub enum SpeechState {
    NotStarted,
    Talking,
    PossiblyEnded,
    Ended,
}

/// The state after one scored tick: speech starts on a high score, one low
/// score after speech is a first strike, a second low score in a row ends the
/// utterance, a high score after the first strike resumes it. `Ended` is final.
pub open spec fn next_state(s: SpeechState, r: Reading) -> SpeechState {
    match (s, r) {
        (SpeechState::NotStarted, Reading::Above) => SpeechState::Talking,
        (SpeechState::Talking, Reading::Below) => SpeechState::PossiblyEnded,
        (SpeechState::PossiblyEnded, Reading::Above) => SpeechState::Talking,
        (SpeechState::PossiblyEnded, Reading::Below) => SpeechState::Ended,
        _ => s,
    }
}

/// Whether a tick in state `s` with reading `r` trims the pre-speech audio:
/// only a low score before speech has started does.
pub open spec fn prunes(s: SpeechState, r: Reading) -> bool {
    s == SpeechState::NotStarted && r == Reading::Below
}

/// The state reached from `s` after the readings `rs`, in order.
pub open spec fn run(s: SpeechState, rs: Seq<Reading>) -> SpeechState
    decreases rs.len(),
{
    if rs.len() == 0 {
        s
    } else {
        next_state(run(s, rs.drop_last()), rs.last())
    }
}

impl SpeechState {
    /// The state after one tick with reading `r`.
    pub fn advance(self, r: Reading) -> (n: SpeechState)
        ensures
            n == next_state(self, r),
    {
        match (self, r) {
            (SpeechState::NotStarted, Reading::Above) => SpeechState::Talking,
            (SpeechState::Talking, Reading::Below) => SpeechState::PossiblyEnded,
            (SpeechState::PossiblyEnded, Reading::Above) => SpeechState::Talking,
            (SpeechState::PossiblyEnded, Reading::Below) => SpeechState::Ended,
            _ => self,
        }
    }

    /// Whether the utterance is complete.
    pub fn is_ended(&self) -> (r: bool)
        ensures
            r == (*self == SpeechState::Ended),
    {
        match self {
            SpeechState::Ended => true,
            _ => false,
        }
    }
}

/// Once ended, a session stays ended whatever is read after.
pub proof fn lemma_ended_is_final(rs: Seq<Reading>)
    ensures
        run(SpeechState::Ended, rs) == SpeechState::Ended,
    decreases rs.len(),
{
    if rs.len() > 0 {
        lemma_ended_is_final(rs.drop_last());
    }
}

/// While no score rises above the threshold, speech never starts.
pub proof fn lemma_no_speech_stays_not_started(rs: Seq<Reading>)
    requires
        forall|i: int| 0 <= i < rs.len() ==> rs[i] != Reading::Above,
    ensures
        run(SpeechState::NotStarted, rs) == SpeechState::NotStarted,
    decreases rs.len(),
{
    if rs.len() > 0 {
        let p = rs.drop_last();
        assert forall|i: int| 0 <= i < p.len() implies p[i] != Reading::Above by {
            assert(p[i] == rs[i]);
        }
        lemma_no_speech_stays_not_started(p);
    }
}

/// Speech, a dip, speech again, then two low scores: the utterance ends on
/// the fifth tick and on none before it, since the dip alone is one strike.
pub proof fn lemma_second_strike_ends(rs: Seq<Reading>)
    requires
        rs.len() == 5,
        rs[0] == Reading::Above,
        rs[1] == Reading::Below,
        rs[2] == Reading::Above,
        rs[3] == Reading::Below,
        rs[4] == Reading::Below,
    ensures
        run(SpeechState::NotStarted, rs) == SpeechState::Ended,
        forall|k: int| 0 <= k < 5 ==> run(SpeechState::NotStarted, #[trigger] rs.take(k)) != SpeechState::Ended,
{
    let s = SpeechState::NotStarted;
    assert(rs.take(0).len() == 0);
    assert(run(s, rs.take(0)) == s);
    assert(rs.take(1).last() == rs[0]);
    assert(rs.take(1).drop_last() =~= rs.take(0));
    assert(rs.take(2).drop_last() =~= rs.take(1));
    assert(rs.take(3).drop_last() =~= rs.take(2));
    assert(rs.take(4).drop_last() =~= rs.take(3));
    assert(rs.drop_last() =~= rs.take(4));
    assert(run(s, rs.take(1)) == SpeechState::Talking);
    assert(run(s, rs.take(2)) == SpeechState::PossiblyEnded);
    assert(run(s, rs.take(3)) == SpeechState::Talking);
    assert(run(s, rs.take(4)) == SpeechState::PossiblyEnded);
}

/// Speech, a dip, then speech again: the session is back to talking and has
/// not ended at any point.
pub proof fn lemma_recovery_resumes_talking(rs: Seq<Reading>)
    requires
        rs.len() == 3,
        rs[0] == Reading::Above,
        rs[1] == Reading::Below,
        rs[2] == Reading::Above,
    ensures
        run(SpeechState::NotStarted, rs) == SpeechState::Talking,
        forall|k: int| 0 <= k <= 3 ==> run(SpeechState::NotStarted, #[trigger] rs.take(k)) != SpeechState::Ended,
{
    let s = SpeechState::NotStarted;
    assert(rs.take(0).len() == 0);
    assert(run(s, rs.take(0)) == s);
    assert(rs.take(1).last() == rs[0]);
    assert(rs.take(1).drop_last() =~= rs.take(0));
    assert(rs.take(2).drop_last() =~= rs.take(1));
    assert(rs.drop_last() =~= rs.take(2));
    assert(rs.take(3) =~= rs);
    assert(run(s, rs.take(1)) == SpeechState::Talking);
    assert(run(s, rs.take(2)) == SpeechState::PossiblyEnded);
}

} // verus!
