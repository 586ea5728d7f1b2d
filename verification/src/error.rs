//! The adapter's errors, as far as the library raises them.
use vstd::prelude::*;
use crate::protocol::{ProtocolError, ProtocolFault, protocol_text};

verus! {

/// Errors of the adapter that the library raises.
#[derive(Debug)]
pub enum AppError {
    InvalidConfig(String),
    InvalidState(String),
    MqttDisconnected(String),
    Protocol(ProtocolError),
}

/// An `AppError` with its texts as character sequences.
pub enum AppFault {
    InvalidConfig(Seq<char>),
    InvalidState(Seq<char>),
    MqttDisconnected(Seq<char>),
    Protocol(ProtocolFault),
}

impl View for AppError {
    type V = AppFault;

    open spec fn view(&self) -> AppFault {
        match self {
            AppError::InvalidConfig(m) => AppFault::InvalidConfig(m@),
            AppError::InvalidState(m) => AppFault::InvalidState(m@),
            AppError::MqttDisconnected(m) => AppFault::MqttDisconnected(m@),
            AppError::Protocol(e) => AppFault::Protocol(e@),
        }
    }
}

/// The view of a result whose error is an `AppError`.
pub open spec fn app_view<T>(res: Result<T, AppError>) -> Result<T, AppFault> {
    match res {
        Ok(v) => Ok(v),
        Err(e) => Err(e@),
    }
}

/// The text of an adapter error.
pub open spec fn app_text(e: AppFault) -> Seq<char> {
    match e {
        AppFault::InvalidConfig(m) => "invalid configuration: "@ + m,
        AppFault::InvalidState(m) => "invalid state: "@ + m,
        AppFault::MqttDisconnected(m) => "mqtt disconnected: "@ + m,
        AppFault::Protocol(p) => "protocol error: "@ + protocol_text(p),
    }
}

impl AppError {
    /// The error's text, as the adapter reports it.
    pub fn message(&self) -> (res: String)
        ensures
            res@ == app_text(self@),
    {
        let (prefix, detail) = match self {
            AppError::InvalidConfig(m) => ("invalid configuration: ", m.clone()),
            AppError::InvalidState(m) => ("invalid state: ", m.clone()),
            AppError::MqttDisconnected(m) => ("mqtt disconnected: ", m.clone()),
            AppError::Protocol(p) => ("protocol error: ", p.message()),
        };
        let mut res = String::from_str(prefix);
        res.append(detail.as_str());
        res
    }
}

} // verus!
