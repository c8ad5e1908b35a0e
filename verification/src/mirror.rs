//! The packet mirror interface: error taxonomy, interface descriptors,
//! the `PacketMirror` capability trait, and the per-event decision step of
//! the capture loop.

use vstd::prelude::*;

verus! {

/// Why a frame was not mirrored.
///
/// The first four variants classify frames that do not match the mirrored
/// protocol profile; they are expected, per-packet and non-fatal.
/// `InjectionFailure` marks an outbound send that failed in the transport
/// layer; the mirroring pipeline itself never produces it, the owner of the
/// send handle does.
#[derive(Clone, Copy, Debug, PartialEq, Eq, Structural)]
pub enum MirrorError {
    /// The Ethernet frame does not carry IPv4.
    NotIPv4,
    /// The IPv4 packet does not carry UDP.
    NotUdp,
    /// The UDP payload carries a GTP-U control message, not a PDU.
    NotPdu,
    /// A buffer was shorter than a parse step required.
    Malformed,
    /// The physical send of the rebuilt frame failed.
    InjectionFailure,
}

/// A link-layer interface, resolved to its hardware address.
#[derive(Debug)]
pub struct NetworkInterfaceRef {
    /// The interface name the descriptor was resolved from.
    pub name: String,
    /// The interface's hardware (MAC) address.
    pub mac: [u8; 6],
}

/// The byte-level value of a mirroring outcome: the rebuilt frame on
/// success, the rejection class otherwise.
pub open spec fn result_view(r: Result<Vec<u8>, MirrorError>) -> Result<Seq<u8>, MirrorError> {
    match r {
        Ok(v) => Ok(v@),
        Err(e) => Err(e),
    }
}

/// The capability interface of a packet mirror: construct a session over two
/// resolved interfaces, then transform captured frames one at a time.
///
/// `mirror_spec` fixes the outcome of `mirror` as a function of the frame
/// bytes and the session alone, so an implementation can keep no hidden
/// state that affects its output.
pub trait PacketMirror: Sized {
    /// What `mirror` returns for a given frame, as a mathematical function
    /// of the session and the frame bytes.
    spec fn mirror_spec(&self, frame: Seq<u8>) -> Result<Seq<u8>, MirrorError>;

    /// Whether the session was built over the two given interfaces.
    spec fn constructed_from(&self, src: NetworkInterfaceRef, dst: NetworkInterfaceRef) -> bool;

    /// Build a session that mirrors from `src` to `dst`.
    fn construct(src: NetworkInterfaceRef, dst: NetworkInterfaceRef) -> (s: Self)
        ensures
            s.constructed_from(src, dst),
    ;

    /// Transform one captured frame into the frame to forward, or the
    /// reason it is not mirrored. No send is performed here: a caller
    /// forwards the returned bytes on its own channel.
    fn mirror(&self, frame: &Vec<u8>) -> (r: Result<Vec<u8>, MirrorError>)
        ensures
            result_view(r) == self.mirror_spec(frame@),
    ;
}

/// One event pulled from the capture stream.
pub enum CaptureEvent {
    /// A raw Ethernet frame arrived.
    Frame(Vec<u8>),
    /// The capture stream failed; no further frames can be obtained.
    StreamError,
}

/// What the capture loop does after handling one event.
#[derive(Clone, Copy, Debug, PartialEq, Eq, Structural)]
pub enum LoopDirective {
    /// Keep pulling frames.
    Continue,
    /// Terminate the loop.
    Stop,
}

/// The outcome of one step of the capture loop.
pub struct StepOutcome {
    /// Whether the loop goes on.
    pub directive: LoopDirective,
    /// The rebuilt frame to forward, when the event carried a mirrorable frame.
    pub outbound: Option<Vec<u8>>,
    /// The per-packet rejection to log, when the frame was not mirrorable.
    pub failure: Option<MirrorError>,
}

/// The decision step of the capture loop: a stream error terminates the
/// loop without running the mirror; a frame is mirrored and the loop goes
/// on whether or not the frame matched the profile.
pub fn capture_step<T: PacketMirror>(mirror: &T, event: &CaptureEvent) -> (out: StepOutcome)
    ensures
        match *event {
            CaptureEvent::StreamError => {
                &&& out.directive == LoopDirective::Stop
                &&& out.outbound is None
                &&& out.failure is None
            },
            CaptureEvent::Frame(f) => {
                &&& out.directive == LoopDirective::Continue
                &&& match mirror.mirror_spec(f@) {
                    Ok(rebuilt) => {
                        &&& out.outbound matches Some(o) && o@ == rebuilt
                        &&& out.failure is None
                    },
                    Err(e) => {
                        &&& out.outbound is None
                        &&& out.failure == Some(e)
                    },
                }
            },
        },
{
    match event {
        CaptureEvent::StreamError => StepOutcome {
            directive: LoopDirective::Stop,
            outbound: None,
            failure: None,
        },
        CaptureEvent::Frame(f) => match mirror.mirror(f) {
            Ok(rebuilt) => StepOutcome {
                directive: LoopDirective::Continue,
                outbound: Some(rebuilt),
                failure: None,
            },
            Err(e) => StepOutcome {
                directive: LoopDirective::Continue,
                outbound: None,
                failure: Some(e),
            },
        },
    }
}

} // verus!
