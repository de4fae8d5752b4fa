//! Which installation of Darktide a run works on, where the Steam one and the
//! Xbox Game Pass one may both be there.

use vstd::prelude::*;

verus! {

/// The number that Steam knows Darktide by.
pub const STEAM_APP_ID: u32 = 1361210;

/// A store that the game can be installed from.
#[derive(Debug, Clone, Copy, PartialEq, Eq, Structural)]
pub enum Install {
    Steam,
    XboxGamePass,
}

/// What looking at the working directory told, where both installations were
/// found. The checks are made in the order of the variants, and the first one
/// that fails is the one reported.
#[derive(Debug, Clone, Copy, PartialEq, Eq, Structural)]
pub enum Vantage {
    /// The working directory is not known.
    Unknown,
    /// The directory of the Steam installation cannot be resolved.
    SteamUnresolved,
    /// The directory above the bundles of the Xbox Game Pass installation
    /// cannot be resolved.
    XboxUnresolved,
    /// The working directory cannot be resolved.
    WorkingUnresolved,
    /// All three are resolved, and the working directory lies or does not lie
    /// below the two others.
    Resolved { in_steam: bool, in_xbox: bool },
}

/// What is known after both stores have been asked.
#[derive(Debug, Clone, Copy, PartialEq, Eq, Structural)]
pub enum Selection {
    /// Neither store has the game.
    NotFound,
    /// This is the installation to work on.
    Use(Install),
    /// Both stores have the game: the working directory decides.
    Both,
}

/// The selection that two lookups lead to.
pub open spec fn selection_of(steam_found: bool, xbox_found: bool) -> Selection {
    if steam_found && xbox_found {
        Selection::Both
    } else if steam_found {
        Selection::Use(Install::Steam)
    } else if xbox_found {
        Selection::Use(Install::XboxGamePass)
    } else {
        Selection::NotFound
    }
}

/// The installation that a vantage picks. Xbox Game Pass is picked where the
/// Steam directory cannot be resolved, and where the working directory lies
/// below the Xbox Game Pass installation and not below the Steam one; in every
/// other case Steam is.
pub open spec fn preferred(vantage: Vantage) -> Install {
    match vantage {
        Vantage::SteamUnresolved => Install::XboxGamePass,
        Vantage::Resolved { in_steam, in_xbox } => if !in_steam && in_xbox {
            Install::XboxGamePass
        } else {
            Install::Steam
        },
        _ => Install::Steam,
    }
}

/// Decides which installation to work on from what the two stores said: the
/// one that was found where only one was, none where none was, and `Both`
/// where the working directory has to decide (see `prefer`).
pub fn darktide_dir(steam_found: bool, xbox_found: bool) -> (selection: Selection)
    ensures
        selection == selection_of(steam_found, xbox_found),
{
    if steam_found && xbox_found {
        Selection::Both
    } else if steam_found {
        Selection::Use(Install::Steam)
    } else if xbox_found {
        Selection::Use(Install::XboxGamePass)
    } else {
        Selection::NotFound
    }
}

/// Picks one of two installations by the working directory.
pub fn prefer(vantage: Vantage) -> (install: Install)
    ensures
        install == preferred(vantage),
{
    match vantage {
        Vantage::SteamUnresolved => Install::XboxGamePass,
        Vantage::Resolved { in_steam, in_xbox } => if !in_steam && in_xbox {
            Install::XboxGamePass
        } else {
            Install::Steam
        },
        _ => Install::Steam,
    }
}

impl Install {
    /// The directory of the bundles below the directory of the installation:
    /// `bundle` for Steam, `Content/bundle` for Xbox Game Pass.
    pub fn bundle_subdir(&self) -> (path: &'static str)
        ensures
            path@ == match *self {
                Install::Steam => "bundle"@,
                Install::XboxGamePass => "Content/bundle"@,
            },
    {
        match self {
            Install::Steam => "bundle",
            Install::XboxGamePass => "Content/bundle",
        }
    }
}

} // verus!
