//! The message filter: which messages are looked at at all.

use vstd::prelude::*;
use crate::model::InboundMessage;

verus! {

/// Whether `msg` goes on to the recognizer: every message does, except those
/// written by automated accounts. The body plays no part.
pub fn should_process(msg: &InboundMessage) -> (proceed: bool)
    ensures
        proceed == !msg.author_is_automated,
{
    !msg.author_is_automated
}

} // verus!
