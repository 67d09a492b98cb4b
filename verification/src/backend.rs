//! The configured capture source: what it needs in order to start, and how it listens.

use crate::error::CaptureError;
use crate::text::{blank, is_blank};
use vstd::prelude::*;
use vstd::string::*;

verus! {

/// The smallest limit on a message.
pub const MIN_MESSAGE_BYTES: usize = 4 * 1024;

/// The largest limit on a message.
pub const MAX_MESSAGE_BYTES: usize = 16 * 1024 * 1024;

/// The settings of the capture source.
#[derive(Debug)]
pub struct ExternalCaptureConfig {
    pub enabled: bool,
    pub bind_addr: String,
    pub auth_token: String,
    pub max_message_bytes: usize,
}

/// The game platform whose frames are captured.
#[derive(Debug, Clone, Copy, PartialEq, Eq, Structural)]
pub enum Platform {
    Majsoul,
    /// Any platform whose frames do not come in over this source.
    Other,
}

/// The kind of a capture source.
#[derive(Debug, Clone, Copy, PartialEq, Eq, Structural)]
pub enum CaptureKind {
    External,
}

/// How a capture source presents itself.
#[derive(Debug)]
pub struct CaptureDescriptor {
    pub kind: CaptureKind,
    pub label: String,
}

/// What a capture source listens with.
#[derive(Debug)]
pub struct CapturePlan {
    pub bind_addr: String,
    pub auth_token: String,
    pub max_message_bytes: usize,
}

/// The capture source for externally captured frames.
pub struct ExternalBackend {
    cfg: ExternalCaptureConfig,
}

impl View for ExternalBackend {
    type V = ExternalCaptureConfig;

    closed spec fn view(&self) -> ExternalCaptureConfig {
        self.cfg
    }
}

/// Why the source cannot start.
pub open spec fn start_refusal(cfg: ExternalCaptureConfig, platform: Platform) -> Option<
    CaptureError,
> {
    if !cfg.enabled {
        Some(CaptureError::Disabled)
    } else if blank(cfg.auth_token@) {
        Some(CaptureError::BlankAuthToken)
    } else if platform != Platform::Majsoul {
        Some(CaptureError::UnsupportedPlatform)
    } else {
        None
    }
}

/// The configured limit, moved to the nearest one that is allowed.
pub open spec fn message_limit(configured: usize) -> usize {
    if configured < MIN_MESSAGE_BYTES {
        MIN_MESSAGE_BYTES
    } else if configured > MAX_MESSAGE_BYTES {
        MAX_MESSAGE_BYTES
    } else {
        configured
    }
}

impl ExternalBackend {
    /// A capture source with the given settings.
    pub fn new(cfg: ExternalCaptureConfig) -> (backend: Self)
        ensures
            backend@ == cfg,
    {
        ExternalBackend { cfg }
    }

    /// Checks the settings and says what to listen with.
    pub fn prepare(&self, platform: Platform) -> (plan: Result<CapturePlan, CaptureError>)
        ensures
            match start_refusal(self@, platform) {
                Some(error) => plan == Err::<CapturePlan, CaptureError>(error),
                None => plan matches Ok(plan) && plan.bind_addr@ == self@.bind_addr@
                    && plan.auth_token@ == self@.auth_token@ && plan.max_message_bytes
                    == message_limit(self@.max_message_bytes),
            },
            plan is Ok <==> self@.enabled && !blank(self@.auth_token@) && platform
                == Platform::Majsoul,
            plan matches Ok(plan) ==> 4096 <= plan.max_message_bytes <= 16777216 && (4096
                <= self@.max_message_bytes <= 16777216 ==> plan.max_message_bytes
                == self@.max_message_bytes),
    {
        if !self.cfg.enabled {
            return Err(CaptureError::Disabled);
        }
        if is_blank(self.cfg.auth_token.as_str()) {
            return Err(CaptureError::BlankAuthToken);
        }
        if platform != Platform::Majsoul {
            return Err(CaptureError::UnsupportedPlatform);
        }
        let max_message_bytes: usize = if self.cfg.max_message_bytes < MIN_MESSAGE_BYTES {
            MIN_MESSAGE_BYTES
        } else if self.cfg.max_message_bytes > MAX_MESSAGE_BYTES {
            MAX_MESSAGE_BYTES
        } else {
            self.cfg.max_message_bytes
        };
        Ok(
            CapturePlan {
                bind_addr: self.cfg.bind_addr.clone(),
                auth_token: self.cfg.auth_token.clone(),
                max_message_bytes,
            },
        )
    }

    /// How the source presents itself: by the address it listens on.
    pub fn descriptor(&self) -> (descriptor: CaptureDescriptor)
        ensures
            descriptor.kind == CaptureKind::External,
            descriptor.label@ == self@.bind_addr@,
    {
        CaptureDescriptor { kind: CaptureKind::External, label: self.cfg.bind_addr.clone() }
    }
}

/// What happens to a listening source.
#[derive(Debug, Clone, Copy, PartialEq, Eq, Structural)]
pub enum ListenerEvent {
    /// The program shuts down.
    ShutdownRequested,
    /// A client connected.
    Accepted,
    /// No connection could be accepted.
    AcceptFailed,
    /// The client is gone, after an error or without one.
    ConnectionEnded { failed: bool },
}

/// What a listening source does next.
#[derive(Debug, Clone, Copy, PartialEq, Eq)]
pub enum ListenerStep {
    /// Wait for the next client.
    Listen,
    /// Serve the client that connected.
    Serve,
    /// Stop listening, with this result.
    Stop(Result<(), CaptureError>),
}

/// The reaction of a listening source. Only a shutdown or a failed accept stops it;
/// however a connection ends, the next client is waited for.
pub open spec fn listener_reaction(event: ListenerEvent) -> ListenerStep {
    match event {
        ListenerEvent::ShutdownRequested => ListenerStep::Stop(Ok(())),
        ListenerEvent::Accepted => ListenerStep::Serve,
        ListenerEvent::AcceptFailed => ListenerStep::Stop(Err(CaptureError::AcceptFailed)),
        ListenerEvent::ConnectionEnded { .. } => ListenerStep::Listen,
    }
}

/// Decides what a listening source does next.
pub fn listener_step(event: ListenerEvent) -> (step: ListenerStep)
    ensures
        step == listener_reaction(event),
{
    match event {
        ListenerEvent::ShutdownRequested => ListenerStep::Stop(Ok(())),
        ListenerEvent::Accepted => ListenerStep::Serve,
        ListenerEvent::AcceptFailed => ListenerStep::Stop(Err(CaptureError::AcceptFailed)),
        ListenerEvent::ConnectionEnded { failed: _ } => ListenerStep::Listen,
    }
}

} // verus!
