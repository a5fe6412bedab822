use vstd::prelude::*;
use vstd::string::*;

verus! {

/// The host signals that the supervisor understands and relays.
#[derive(Clone, Copy, Debug, PartialEq, Eq, Structural)]
pub enum InternalSignal {
    Interrupt,
    Terminate,
    Hangup,
}

pub open spec fn signal_name_of(sig: InternalSignal) -> Seq<char> {
    match sig {
        InternalSignal::Interrupt => "SIGINT"@,
        InternalSignal::Terminate => "SIGTERM"@,
        InternalSignal::Hangup => "SIGHUP"@,
    }
}

impl InternalSignal {
    /// The conventional name of the host signal.
    pub fn name(&self) -> (r: String)
        ensures
            r@ == signal_name_of(*self),
    {
        match self {
            InternalSignal::Interrupt => String::from_str("SIGINT"),
            InternalSignal::Terminate => String::from_str("SIGTERM"),
            InternalSignal::Hangup => String::from_str("SIGHUP"),
        }
    }
}

/// What the relay does on one host signal.
#[derive(Clone, Debug)]
pub struct RelayStep {
    /// The signal handed on to every process.
    pub forward: InternalSignal,
    /// Whether the relay goes on listening afterwards.
    pub keep_listening: bool,
    /// The message to log.
    pub message: String,
}

/// The relay hands every host signal on as it came, and stops after an interrupt
/// or a terminate; a hangup leaves it listening.
pub fn relay_step(received: InternalSignal) -> (r: RelayStep)
    ensures
        r.forward == received,
        r.keep_listening == (received == InternalSignal::Hangup),
        r.message@ == "Received "@ + signal_name_of(received),
{
    let mut message = String::from_str("Received ");
    let name = received.name();
    message.append(name.as_str());
    let keep_listening = match received {
        InternalSignal::Hangup => true,
        _ => false,
    };
    RelayStep { forward: received, keep_listening, message }
}

} // verus!
