//! What the operator can ask for from the tray, and what the tray shows.

use vstd::prelude::*;
use vstd::string::StringExecFns;

verus! {

/// A command of the operator.
#[derive(Clone, Copy, Debug, PartialEq, Eq, Structural)]
pub enum TrayEvent {
    BecomeHost,
    BecomeClient,
    Quit,
}

impl TrayEvent {
    /// The label of the command in the menu, as a mathematical value.
    pub open spec fn label(self) -> Seq<char> {
        match self {
            TrayEvent::BecomeHost => "Become Host"@,
            TrayEvent::BecomeClient => "Become Client"@,
            TrayEvent::Quit => "Quit"@,
        }
    }

    /// The label of the command in the menu.
    pub fn to_string(&self) -> (s: String)
        ensures
            s@ == self.label(),
    {
        match self {
            TrayEvent::BecomeHost => String::from_str("Become Host"),
            TrayEvent::BecomeClient => String::from_str("Become Client"),
            TrayEvent::Quit => String::from_str("Quit"),
        }
    }
}

/// The icon in the tray: it tells the operator whether this node is the
/// host.
#[derive(Clone, Copy, Debug, PartialEq, Eq, Structural)]
pub enum TrayIcon {
    Default,
    Host,
}

impl TrayIcon {
    /// The name of the icon among the resources of the program, as a
    /// mathematical value.
    pub open spec fn resource(self) -> Seq<char> {
        match self {
            TrayIcon::Default => "tray-default"@,
            TrayIcon::Host => "tray-host"@,
        }
    }

    /// The name of the icon among the resources of the program.
    pub fn resource_name(&self) -> (s: String)
        ensures
            s@ == self.resource(),
    {
        match self {
            TrayIcon::Default => String::from_str("tray-default"),
            TrayIcon::Host => String::from_str("tray-host"),
        }
    }
}

} // verus!
