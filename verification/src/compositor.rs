//! The compositor's workspaces and windows, and the manager that detects the compositor.
use vstd::prelude::*;

use crate::error::MagnetarError;
use crate::hyprland::Hyprland;

verus! {

/// A workspace of the compositor.
#[derive(Debug)]
pub struct Workspace {
    pub id: i32,
    pub name: String,
    pub monitor: String,
    pub windows: i32,
    pub urgent: bool,
}

/// A window (client) of the compositor.
#[derive(Debug)]
pub struct Client {
    pub address: String,
    pub title: String,
    pub class: String,
    pub pid: i32,
    pub workspace: i32,
    pub monitor: i32,
    pub floating: bool,
    pub fullscreen: bool,
    pub focused: bool,
}

impl Clone for Workspace {
    fn clone(&self) -> (r: Self)
        ensures
            r == *self,
    {
        Workspace {
            id: self.id,
            name: self.name.clone(),
            monitor: self.monitor.clone(),
            windows: self.windows,
            urgent: self.urgent,
        }
    }
}

impl Clone for Client {
    fn clone(&self) -> (r: Self)
        ensures
            r == *self,
    {
        Client {
            address: self.address.clone(),
            title: self.title.clone(),
            class: self.class.clone(),
            pid: self.pid,
            workspace: self.workspace,
            monitor: self.monitor,
            floating: self.floating,
            fullscreen: self.fullscreen,
            focused: self.focused,
        }
    }
}

/// The clients shown for a workspace filter: all of them without a filter, else those on
/// the given workspace, in their order.
pub open spec fn clients_on(clients: Seq<Client>, workspace: Option<i32>) -> Seq<Client> {
    match workspace {
        None => clients,
        Some(ws) => clients.filter(|c: Client| c.workspace == ws),
    }
}

/// Keeps the clients on `workspace` (all of them when it is `None`), in order.
pub fn filter_clients(clients: Vec<Client>, workspace: Option<i32>) -> (r: Vec<Client>)
    ensures
        r@ == clients_on(clients@, workspace),
{
    match workspace {
        None => clients,
        Some(ws) => {
            let ghost pred = |c: Client| c.workspace == ws;
            let mut kept: Vec<Client> = Vec::new();
            let n = clients.len();
            for i in 0..n
                invariant
                    n == clients@.len(),
                    pred == (|c: Client| c.workspace == ws),
                    kept@ == clients@.take(i as int).filter(pred),
            {
                proof {
                    reveal_with_fuel(Seq::<_>::filter, 1);
                    assert(clients@.take(i + 1).drop_last() =~= clients@.take(i as int));
                }
                if clients[i].workspace == ws {
                    kept.push(clients[i].clone());
                }
            }
            proof {
                assert(clients@.take(n as int) =~= clients@);
            }
            kept
        },
    }
}

/// Detects the running compositor and holds a connection to it.
pub struct CompositorManager {
    compositor: Option<Hyprland>,
}

impl CompositorManager {
    /// A manager that has detected nothing yet.
    pub fn new() -> (r: Self)
        ensures
            r.current() is None,
    {
        CompositorManager { compositor: None }
    }

    /// The compositor detected last, if any.
    pub closed spec fn current(&self) -> Option<Hyprland> {
        self.compositor
    }

    /// Detects the compositor from the Hyprland instance signature of the environment
    /// (`HYPRLAND_INSTANCE_SIGNATURE`, `None` where it is not set): with a signature, connects
    /// to that Hyprland instance and keeps it; without one, fails and keeps what it had.
    pub fn detect(&mut self, signature: Option<String>) -> (r: Result<(), MagnetarError>)
        ensures
            match signature {
                Some(sig) => r is Ok && (final(self).current() matches Some(h) && h@ == sig@),
                None => r matches Err(MagnetarError::Compositor(m)) && m@ == "No compositor detected"@
                    && final(self).current() == old(self).current(),
            },
    {
        match signature {
            Some(sig) => {
                let h = Hyprland::connect(Some(sig));
                match h {
                    Ok(h) => {
                        self.compositor = Some(h);
                        Ok(())
                    },
                    Err(e) => Err(e),
                }
            },
            None => Err(MagnetarError::Compositor(String::from_str("No compositor detected"))),
        }
    }

    /// The compositor detected last, if any.
    pub fn get(&self) -> (r: Option<Hyprland>)
        ensures
            r == self.current(),
    {
        match &self.compositor {
            Some(h) => Some(h.clone()),
            None => None,
        }
    }
}

impl Default for CompositorManager {
    fn default() -> (r: Self)
        ensures
            r.current() is None,
    {
        Self::new()
    }
}

} // verus!
