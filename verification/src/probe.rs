//! What came back when the clipboard utility was run once.

use vstd::prelude::*;

verus! {

/// The result of running the clipboard utility once.
#[derive(Clone, Debug, PartialEq, Eq)]
pub enum ProbeOutcome {
    /// The utility could not be run at all.
    NotStarted { reason: String },
    /// The utility ran to its end: whether it reported success, and what
    /// it wrote to its standard output and to its standard error.
    Exited { success: bool, stdout: Vec<u8>, stderr: Vec<u8> },
}

/// Why a run of the utility gave nothing to use.
#[derive(Clone, Copy, Debug, PartialEq, Eq, Structural)]
pub enum ProbeFailure {
    /// The utility could not be run at all.
    NotStarted,
    /// The utility ran and reported failure.
    Unsuccessful,
    /// The utility ran and reported success, and wrote nothing.
    EmptyOutput,
}

/// A listing on one line: each line feed gives way to a comma and a space.
pub open spec fn on_one_line(listing: Seq<u8>) -> Seq<u8>
    decreases listing.len(),
{
    if listing.len() == 0 {
        Seq::empty()
    } else if listing.last() == 10 {
        on_one_line(listing.drop_last()) + seq![44u8, 32u8]
    } else {
        on_one_line(listing.drop_last()) + seq![listing.last()]
    }
}

/// Puts a listing on one line, for a log: each line feed gives way to a
/// comma and a space.
pub fn one_line(listing: &[u8]) -> (line: Vec<u8>)
    ensures
        line@ == on_one_line(listing@),
{
    let mut line: Vec<u8> = Vec::new();
    let mut at: usize = 0;
    while at < listing.len()
        invariant
            at <= listing.len(),
            line@ == on_one_line(listing@.take(at as int)),
        decreases listing.len() - at,
    {
        proof {
            assert(listing@.take(at + 1).drop_last() == listing@.take(at as int));
        }
        if listing[at] == 10 {
            line.push(44);
            line.push(32);
        } else {
            line.push(listing[at]);
        }
        at = at + 1;
    }
    proof {
        assert(listing@.take(at as int) == listing@);
    }
    line
}

impl ProbeOutcome {
    /// The types that the utility listed, on one line: whatever it wrote,
    /// if it ran at all.
    pub open spec fn listing(self) -> Option<Seq<u8>> {
        match self {
            ProbeOutcome::Exited { stdout, .. } => Some(on_one_line(stdout@)),
            ProbeOutcome::NotStarted { .. } => None,
        }
    }

    /// The types that the utility listed, on one line, for a log.
    pub fn listed_types(&self) -> (line: Option<Vec<u8>>)
        ensures
            match line {
                Some(found) => self.listing() == Some(found@),
                None => self.listing() is None,
            },
    {
        match self {
            ProbeOutcome::Exited { stdout, .. } => Some(one_line(stdout.as_slice())),
            ProbeOutcome::NotStarted { .. } => None,
        }
    }

    /// The bytes that the run gave: what the utility wrote, where it
    /// reported success and wrote anything at all.
    pub open spec fn payload(self) -> Option<Seq<u8>> {
        match self {
            ProbeOutcome::Exited { success, stdout, .. } => if success && stdout@.len() > 0 {
                Some(stdout@)
            } else {
                None
            },
            ProbeOutcome::NotStarted { .. } => None,
        }
    }

    /// Why the run gave nothing to use, if it gave nothing.
    pub open spec fn failure(self) -> Option<ProbeFailure> {
        match self {
            ProbeOutcome::NotStarted { .. } => Some(ProbeFailure::NotStarted),
            ProbeOutcome::Exited { success, stdout, .. } => if !success {
                Some(ProbeFailure::Unsuccessful)
            } else if stdout@.len() == 0 {
                Some(ProbeFailure::EmptyOutput)
            } else {
                None
            },
        }
    }

    /// What the utility complained of: what it wrote to its standard error
    /// in a run that gave nothing to use, if it wrote anything there.
    pub open spec fn complaint(self) -> Option<Seq<u8>> {
        match self {
            ProbeOutcome::Exited { stderr, .. } => if self.payload() is None && stderr@.len() > 0 {
                Some(stderr@)
            } else {
                None
            },
            ProbeOutcome::NotStarted { .. } => None,
        }
    }

    /// The bytes that the run gave, if it gave any.
    pub fn payload_bytes(&self) -> (bytes: Option<&Vec<u8>>)
        ensures
            match bytes {
                Some(found) => self.payload() == Some(found@),
                None => self.payload() is None,
            },
    {
        match self {
            ProbeOutcome::Exited { success, stdout, .. } => if *success && stdout.len() > 0 {
                Some(stdout)
            } else {
                None
            },
            ProbeOutcome::NotStarted { .. } => None,
        }
    }

    /// Why the run gave nothing to use, if it gave nothing.
    pub fn why_unusable(&self) -> (reason: Option<ProbeFailure>)
        ensures
            reason == self.failure(),
    {
        match self {
            ProbeOutcome::NotStarted { .. } => Some(ProbeFailure::NotStarted),
            ProbeOutcome::Exited { success, stdout, .. } => if !*success {
                Some(ProbeFailure::Unsuccessful)
            } else if stdout.len() == 0 {
                Some(ProbeFailure::EmptyOutput)
            } else {
                None
            },
        }
    }

    /// What the utility complained of in a run that gave nothing to use,
    /// for a log.
    pub fn complaint_bytes(&self) -> (bytes: Option<&Vec<u8>>)
        ensures
            match bytes {
                Some(found) => self.complaint() == Some(found@),
                None => self.complaint() is None,
            },
    {
        match self {
            ProbeOutcome::Exited { success, stdout, stderr } => if (!*success || stdout.len() == 0)
                && stderr.len() > 0 {
                Some(stderr)
            } else {
                None
            },
            ProbeOutcome::NotStarted { .. } => None,
        }
    }

    /// A run either gives bytes or has a reason why not, never both.
    pub proof fn payload_or_failure(self)
        ensures
            self.payload() is Some <==> self.failure() is None,
            self.payload() matches Some(bytes) ==> bytes.len() > 0,
    {
    }
}

} // verus!
