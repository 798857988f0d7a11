//! How many open descriptors a run needs, and what to ask of the system.

use vstd::prelude::*;
use crate::decimal::decimal_text;
use crate::decimal::render_unsigned;

verus! {

/// Descriptors that the process holds besides its connections: the three
/// standard streams.
pub const RESERVED_DESCRIPTORS: u64 = 3;

/// Descriptors that a run with this many connections holds at once.
pub open spec fn descriptors_needed(connection_count: u32) -> nat {
    connection_count as nat + RESERVED_DESCRIPTORS as nat
}

/// Why the descriptor limit cannot be set for a run.
#[derive(Clone, Copy, Debug, PartialEq, Eq, Structural)]
pub enum LimitError {
    /// The hard limit of the process is below what the run needs.
    HardLimitTooLow { hard_limit: u64 },
}

/// The soft limit on open descriptors to set before the workers start.
///
/// A run needs one descriptor per connection and the reserved ones. Where
/// the hard limit allows that many, the soft limit to set is exactly that
/// many; where it does not, the run cannot start, and the error names the
/// hard limit.
pub fn plan_descriptor_limit(hard_limit: u64, connection_count: u32) -> (plan: Result<
    u64,
    LimitError,
>)
    ensures
        plan is Ok <==> hard_limit >= descriptors_needed(connection_count),
        plan matches Ok(soft_limit) ==> soft_limit == descriptors_needed(connection_count)
            && soft_limit <= hard_limit,
        plan matches Err(error) ==> error == (LimitError::HardLimitTooLow { hard_limit }),
{
    let needed: u64 = connection_count as u64 + RESERVED_DESCRIPTORS;
    if hard_limit < needed {
        Err(LimitError::HardLimitTooLow { hard_limit })
    } else {
        Ok(needed)
    }
}

impl LimitError {
    /// What `message` writes.
    pub open spec fn message_text(self) -> Seq<char> {
        match self {
            LimitError::HardLimitTooLow { hard_limit } =>
                "the hard limit of this process is only "@ + decimal_text(hard_limit as nat),
        }
    }

    /// The diagnostic for the error, which names the hard limit.
    pub fn message(&self) -> (text: String)
        ensures
            text@ == self.message_text(),
    {
        match self {
            LimitError::HardLimitTooLow { hard_limit } => {
                let mut text = String::from_str("the hard limit of this process is only ");
                text.append(render_unsigned(*hard_limit as u128).as_str());
                text
            },
        }
    }
}

} // verus!
