//! What the daemon keeps between one connection and the next.
use vstd::prelude::*;

verus! {

/// The daemon's context as contracts see it.
pub struct StateView {
    /// The path of the artifact that is loaded, if one is.
    pub loaded: Option<Seq<char>>,
}

/// The context that outlives the connections: the artifact that a client had
/// the daemon load, kept so that later clients need not load it again.
///
/// One value exists per daemon. A dispatch takes it by exclusive reference, so
/// no two commands ever work on it at once, and only a dispatch changes it.
pub struct DaemonState {
    loaded: Option<String>,
}

impl View for DaemonState {
    type V = StateView;

    closed spec fn view(&self) -> StateView {
        StateView {
            loaded: match self.loaded {
                Some(path) => Some(path@),
                None => None,
            },
        }
    }
}

impl DaemonState {
    /// The context of a daemon that has just started: nothing is loaded.
    pub fn new() -> (state: DaemonState)
        ensures
            state@.loaded is None,
    {
        DaemonState { loaded: None }
    }

    /// The path of the loaded artifact, if there is one.
    pub fn loaded(&self) -> (path: Option<&str>)
        ensures
            match path {
                Some(p) => self@.loaded == Some(p@),
                None => self@.loaded is None,
            },
    {
        match &self.loaded {
            Some(path) => Some(path.as_str()),
            None => None,
        }
    }

    /// Whether nothing is loaded.
    pub fn is_idle(&self) -> (idle: bool)
        ensures
            idle == (self@.loaded is None),
    {
        self.loaded.is_none()
    }

    /// Makes `path` the loaded artifact, in place of any earlier one.
    pub(crate) fn load(&mut self, path: String)
        ensures
            final(self)@.loaded == Some(path@),
    {
        self.loaded = Some(path);
    }

    /// Forgets the loaded artifact.
    pub(crate) fn reset(&mut self)
        ensures
            final(self)@.loaded is None,
    {
        self.loaded = None;
    }
}

} // verus!
