//! Messages between the engine's threads and the queue that carries them.
pub mod packet_types;
pub mod queue;

use vstd::prelude::*;

use crate::messaging::packet_types::Message;

verus! {

/// Something that reacts to messages; implemented by the users of the queue.
pub trait MessageHandler {
    fn handle_message(message: &Message);
}

} // verus!
