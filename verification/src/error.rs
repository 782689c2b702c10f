//! The errors of the library.
use vstd::prelude::*;

use crate::text::push_str;

verus! {

/// What went wrong, with a message for the user.
#[derive(Debug)]
pub enum MagnetarError {
    Compositor(String),
    Ipc(String),
    Window(String),
    Config(String),
    Io(String),
}

impl Clone for MagnetarError {
    fn clone(&self) -> (r: Self)
        ensures
            r == *self,
    {
        match self {
            MagnetarError::Compositor(m) => MagnetarError::Compositor(m.clone()),
            MagnetarError::Ipc(m) => MagnetarError::Ipc(m.clone()),
            MagnetarError::Window(m) => MagnetarError::Window(m.clone()),
            MagnetarError::Config(m) => MagnetarError::Config(m.clone()),
            MagnetarError::Io(m) => MagnetarError::Io(m.clone()),
        }
    }
}

/// The text an error is shown with: its kind, a colon and its message.
pub open spec fn error_text(e: MagnetarError) -> Seq<char> {
    match e {
        MagnetarError::Compositor(m) => "Compositor error: "@ + m@,
        MagnetarError::Ipc(m) => "IPC error: "@ + m@,
        MagnetarError::Window(m) => "Window error: "@ + m@,
        MagnetarError::Config(m) => "Config error: "@ + m@,
        MagnetarError::Io(m) => "IO error: "@ + m@,
    }
}

impl MagnetarError {
    /// The text the error is shown with (see [`error_text`]).
    pub fn message(&self) -> (r: String)
        ensures
            r@ == error_text(*self),
    {
        let (prefix, m) = match self {
            MagnetarError::Compositor(m) => ("Compositor error: ", m),
            MagnetarError::Ipc(m) => ("IPC error: ", m),
            MagnetarError::Window(m) => ("Window error: ", m),
            MagnetarError::Config(m) => ("Config error: ", m),
            MagnetarError::Io(m) => ("IO error: ", m),
        };
        let mut r = String::new();
        push_str(&mut r, prefix);
        push_str(&mut r, m.as_str());
        proof {
            assert(r@ =~= error_text(*self));
        }
        r
    }
}

} // verus!
