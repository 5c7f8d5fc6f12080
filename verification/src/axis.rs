//! The seven state axes and the mapping from textual field tags to axes.
//!
//! State vectors expose their components in one canonical order; the
//! organism-layer AST names components by textual type tags.  The closed
//! enumeration here replaces string-tag dispatch, so that an invalid tag is
//! an explicit `None` instead of a silent fallthrough.

use vstd::prelude::*;

verus! {

/// One of the seven state-vector components, in canonical order.
#[derive(Debug, Clone, Copy, PartialEq, Eq, Structural)]
pub enum StateAxis {
    Coherence,
    Decoherence,
    Information,
    Emergence,
    Polarity,
    Torsion,
    Epoch,
}

impl StateAxis {
    /// The axis position in the canonical component order.
    pub open spec fn spec_index(self) -> int {
        match self {
            StateAxis::Coherence => 0,
            StateAxis::Decoherence => 1,
            StateAxis::Information => 2,
            StateAxis::Emergence => 3,
            StateAxis::Polarity => 4,
            StateAxis::Torsion => 5,
            StateAxis::Epoch => 6,
        }
    }

    /// Position of this axis in the canonical component order.
    pub fn index(&self) -> (i: usize)
        ensures
            i == self.spec_index(),
            i < 7,
    {
        match self {
            StateAxis::Coherence => 0,
            StateAxis::Decoherence => 1,
            StateAxis::Information => 2,
            StateAxis::Emergence => 3,
            StateAxis::Polarity => 4,
            StateAxis::Torsion => 5,
            StateAxis::Epoch => 6,
        }
    }

    /// Resolve a textual field-type tag to its axis, if the tag is one of
    /// the seven known names.
    pub fn from_name(tag: &str) -> (r: Option<StateAxis>)
        ensures
            r == axis_of_tag(tag@),
    {
        let owned = tag.to_owned();
        if owned == "coherence".to_owned() {
            Some(StateAxis::Coherence)
        } else if owned == "decoherence".to_owned() {
            Some(StateAxis::Decoherence)
        } else if owned == "information".to_owned() {
            Some(StateAxis::Information)
        } else if owned == "emergence".to_owned() {
            Some(StateAxis::Emergence)
        } else if owned == "polarity".to_owned() {
            Some(StateAxis::Polarity)
        } else if owned == "torsion".to_owned() {
            Some(StateAxis::Torsion)
        } else if owned == "epoch".to_owned() {
            Some(StateAxis::Epoch)
        } else {
            None
        }
    }
}

/// The axis named by a field-type tag, or `None` for an unknown tag.
pub open spec fn axis_of_tag(tag: Seq<char>) -> Option<StateAxis> {
    if tag == "coherence"@ {
        Some(StateAxis::Coherence)
    } else if tag == "decoherence"@ {
        Some(StateAxis::Decoherence)
    } else if tag == "information"@ {
        Some(StateAxis::Information)
    } else if tag == "emergence"@ {
        Some(StateAxis::Emergence)
    } else if tag == "polarity"@ {
        Some(StateAxis::Polarity)
    } else if tag == "torsion"@ {
        Some(StateAxis::Torsion)
    } else if tag == "epoch"@ {
        Some(StateAxis::Epoch)
    } else {
        None
    }
}

} // verus!
