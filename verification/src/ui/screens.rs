//! Screen definitions for the TUI

use vstd::prelude::*;

verus! {

/// Screens in the installer flow
#[derive(Debug, Clone, Copy, PartialEq, Eq, Structural)]
pub enum Screen {
    Welcome,
    ModeSelect,
    DeviceDiscovery,
    DeviceSelect,
    RaidConfig,
    Settings,
    PreflightCheck,
    Confirmation,
    Execution,
    Completion,
}

impl Screen {
    /// Position of the screen in the flow, from 0.
    pub open spec fn position(self) -> nat {
        match self {
            Screen::Welcome => 0,
            Screen::ModeSelect => 1,
            Screen::DeviceDiscovery => 2,
            Screen::DeviceSelect => 3,
            Screen::RaidConfig => 4,
            Screen::Settings => 5,
            Screen::PreflightCheck => 6,
            Screen::Confirmation => 7,
            Screen::Execution => 8,
            Screen::Completion => 9,
        }
    }

    /// The screen at a position of the flow.
    pub open spec fn at(position: nat) -> Screen {
        if position == 0 {
            Screen::Welcome
        } else if position == 1 {
            Screen::ModeSelect
        } else if position == 2 {
            Screen::DeviceDiscovery
        } else if position == 3 {
            Screen::DeviceSelect
        } else if position == 4 {
            Screen::RaidConfig
        } else if position == 5 {
            Screen::Settings
        } else if position == 6 {
            Screen::PreflightCheck
        } else if position == 7 {
            Screen::Confirmation
        } else if position == 8 {
            Screen::Execution
        } else {
            Screen::Completion
        }
    }

    /// The heading of the screen.
    pub open spec fn heading(self) -> Seq<char> {
        match self {
            Screen::Welcome => "Welcome to ZFSBootMenu Installer"@,
            Screen::ModeSelect => "Select Installation Mode"@,
            Screen::DeviceDiscovery => "Discovering Devices"@,
            Screen::DeviceSelect => "Select Devices"@,
            Screen::RaidConfig => "RAID Configuration"@,
            Screen::Settings => "Installation Settings"@,
            Screen::PreflightCheck => "Pre-flight Checks"@,
            Screen::Confirmation => "Confirm Installation"@,
            Screen::Execution => "Installing"@,
            Screen::Completion => "Installation Complete"@,
        }
    }

    /// The screen that follows, if one does.
    pub open spec fn following(self) -> Option<Screen> {
        if self == Screen::Completion {
            None
        } else {
            Some(Screen::at(self.position() + 1))
        }
    }

    /// The screen that one can go back to, if there is one: none from the
    /// first screen, and none once the installation runs.
    pub open spec fn preceding(self) -> Option<Screen> {
        if self == Screen::Welcome || self == Screen::Execution || self == Screen::Completion {
            None
        } else {
            Some(Screen::at((self.position() - 1) as nat))
        }
    }

    /// Get the title for this screen
    pub fn title(&self) -> (r: &'static str)
        ensures
            r@ == self.heading(),
    {
        match self {
            Screen::Welcome => "Welcome to ZFSBootMenu Installer",
            Screen::ModeSelect => "Select Installation Mode",
            Screen::DeviceDiscovery => "Discovering Devices",
            Screen::DeviceSelect => "Select Devices",
            Screen::RaidConfig => "RAID Configuration",
            Screen::Settings => "Installation Settings",
            Screen::PreflightCheck => "Pre-flight Checks",
            Screen::Confirmation => "Confirm Installation",
            Screen::Execution => "Installing",
            Screen::Completion => "Installation Complete",
        }
    }

    /// Get the next screen
    pub fn next(&self) -> (r: Option<Screen>)
        ensures
            r == self.following(),
    {
        match self {
            Screen::Welcome => Some(Screen::ModeSelect),
            Screen::ModeSelect => Some(Screen::DeviceDiscovery),
            Screen::DeviceDiscovery => Some(Screen::DeviceSelect),
            Screen::DeviceSelect => Some(Screen::RaidConfig),
            Screen::RaidConfig => Some(Screen::Settings),
            Screen::Settings => Some(Screen::PreflightCheck),
            Screen::PreflightCheck => Some(Screen::Confirmation),
            Screen::Confirmation => Some(Screen::Execution),
            Screen::Execution => Some(Screen::Completion),
            Screen::Completion => None,
        }
    }

    /// Get the previous screen
    pub fn previous(&self) -> (r: Option<Screen>)
        ensures
            r == self.preceding(),
    {
        match self {
            Screen::Welcome => None,
            Screen::ModeSelect => Some(Screen::Welcome),
            Screen::DeviceDiscovery => Some(Screen::ModeSelect),
            Screen::DeviceSelect => Some(Screen::DeviceDiscovery),
            Screen::RaidConfig => Some(Screen::DeviceSelect),
            Screen::Settings => Some(Screen::RaidConfig),
            Screen::PreflightCheck => Some(Screen::Settings),
            Screen::Confirmation => Some(Screen::PreflightCheck),
            Screen::Execution => None,
            Screen::Completion => None,
        }
    }
}

/// Going back from a screen leads to the screen from which going on leads
/// to it.
pub proof fn lemma_back_undoes_forward(screen: Screen)
    ensures
        screen.preceding() matches Some(before) ==> before.following() == Some(screen),
{
}

} // verus!
