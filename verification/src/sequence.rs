//! Numbering of the frames of one capture session.

use vstd::prelude::*;

verus! {

/// What a session does with a frame that carries a given sequence number.
#[derive(Debug, Clone, Copy, PartialEq, Eq, Structural)]
pub enum SequenceDecision {
    /// The frame is the next one of its session.
    Accept,
    /// The frame repeats one that was already accepted.
    Duplicate,
    /// At least one frame is missing; the session is poisoned from here on.
    Gap { expected: u64, got: u64 },
    /// An earlier gap poisoned the session.
    Poisoned,
}

/// The numbers that one session has seen so far. Frames are numbered from 1.
#[derive(Debug, Clone, Copy, PartialEq, Eq, Structural)]
pub struct SessionSequence {
    /// The number of the last accepted frame.
    pub last: Option<u64>,
    /// Whether a gap was observed.
    pub poisoned: bool,
}

impl SessionSequence {
    /// A session that has seen no frame.
    pub open spec fn fresh() -> Self {
        SessionSequence { last: None, poisoned: false }
    }

    /// How many frames the session has accepted.
    pub open spec fn accepted(self) -> nat {
        match self.last {
            Some(last) => last as nat,
            None => 0,
        }
    }

    /// Accepted frames are numbered from 1, so the last number is never 0.
    pub open spec fn well_formed(self) -> bool {
        self.last != Some(0u64)
    }

    /// The frame was accepted before: its number is not beyond the last one.
    pub open spec fn already_accepted(self, sequence: u64) -> bool {
        self.last matches Some(last) && sequence <= last
    }

    /// The decision on a frame numbered `sequence`.
    pub open spec fn decision(self, sequence: u64) -> SequenceDecision {
        if self.poisoned {
            SequenceDecision::Poisoned
        } else if self.already_accepted(sequence) {
            SequenceDecision::Duplicate
        } else if sequence == self.accepted() + 1 {
            SequenceDecision::Accept
        } else {
            SequenceDecision::Gap { expected: (self.accepted() + 1) as u64, got: sequence }
        }
    }

    /// The session after a frame numbered `sequence`: an accepted frame becomes the
    /// last one, a gap poisons the session, and nothing else changes it.
    pub open spec fn after(self, sequence: u64) -> Self {
        match self.decision(sequence) {
            SequenceDecision::Accept => SessionSequence { last: Some(sequence), ..self },
            SequenceDecision::Gap { .. } => SessionSequence { poisoned: true, ..self },
            _ => self,
        }
    }

    /// Decides on the frame numbered `sequence` and records it.
    pub fn observe(&mut self, sequence: u64) -> (decision: SequenceDecision)
        ensures
            decision == old(self).decision(sequence),
            *final(self) == old(self).after(sequence),
            old(self).well_formed() ==> final(self).well_formed(),
            decision matches SequenceDecision::Gap { expected, got } ==> expected
                == old(self).accepted() + 1 && got == sequence && got != expected,
            decision is Accept <==> !old(self).poisoned && sequence == (match old(self).last {
                Some(last) => last + 1,
                None => 1int,
            }),
            decision is Duplicate <==> !old(self).poisoned && (old(self).last matches Some(last)
                && sequence <= last),
            decision is Poisoned <==> old(self).poisoned,
            final(self).last == (if decision is Accept {
                Some(sequence)
            } else {
                old(self).last
            }),
            final(self).poisoned == (old(self).poisoned || decision is Gap),
    {
        if self.poisoned {
            return SequenceDecision::Poisoned;
        }
        let expected: u64 = match self.last {
            Some(last) => match last.checked_add(1) {
                Some(next) => next,
                None => 1,
            },
            None => 1,
        };
        if let Some(last) = self.last {
            if sequence <= last {
                return SequenceDecision::Duplicate;
            }
        }
        if sequence != expected {
            self.poisoned = true;
            return SequenceDecision::Gap { expected, got: sequence };
        }
        self.last = Some(sequence);
        SequenceDecision::Accept
    }
}

impl Default for SessionSequence {
    fn default() -> (session: Self)
        ensures
            session == SessionSequence::fresh(),
            session.last is None,
            !session.poisoned,
    {
        SessionSequence { last: None, poisoned: false }
    }
}

} // verus!
