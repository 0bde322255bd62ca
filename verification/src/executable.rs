//! The executables of the game that a profile can be started with.

use crate::paths::{is_relative, joined, parent_of, path_is_relative, path_join, path_parent};
use std::path::PathBuf;
use vstd::prelude::*;

verus! {

/// The flavour of an executable. It decides how the game is kept from
/// loading workshop content on its own.
#[derive(Debug, Clone, PartialEq, Eq, PartialOrd, Ord, Structural)]
pub enum ExecutableVariant {
    XStarbound,
    OpenStarbound,
    Vanilla,
}

impl ExecutableVariant {
    /// All variants, in the order in which they are offered.
    pub fn options() -> (all: [Self; 3])
        ensures
            all@ == seq![
                ExecutableVariant::XStarbound,
                ExecutableVariant::OpenStarbound,
                ExecutableVariant::Vanilla,
            ],
    {
        let all = [Self::XStarbound, Self::OpenStarbound, Self::Vanilla];
        assert(all@ =~= seq![
            ExecutableVariant::XStarbound,
            ExecutableVariant::OpenStarbound,
            ExecutableVariant::Vanilla,
        ]);
        all
    }

    /// The name of the variant as it is shown.
    pub fn label(&self) -> (name: &'static str)
        ensures
            name@ == match self {
                ExecutableVariant::XStarbound => "XStarbound"@,
                ExecutableVariant::OpenStarbound => "OpenStarbound"@,
                ExecutableVariant::Vanilla => "Vanilla"@,
            },
    {
        match self {
            Self::XStarbound => "XStarbound",
            Self::OpenStarbound => "OpenStarbound",
            Self::Vanilla => "Vanilla",
        }
    }
}

impl Default for ExecutableVariant {
    fn default() -> (variant: Self)
        ensures
            variant == ExecutableVariant::Vanilla,
    {
        Self::Vanilla
    }
}

/// An executable of the game.
#[derive(Debug, Clone)]
pub struct Executable {
    /// The binary.
    pub bin: PathBuf,
    /// Assets to load besides those of the game itself.
    pub assets: Option<PathBuf>,
    pub variant: ExecutableVariant,
}

impl Executable {
    /// Where the executable's own assets are: nowhere if it has none, else
    /// the given directory, read from the folder of the binary when it is
    /// relative.
    pub open spec fn resolved_assets(&self) -> Option<PathBuf> {
        match self.assets {
            None => None,
            Some(d) => if is_relative(d) {
                Some(joined(parent_of(self.bin)->0, d))
            } else {
                Some(d)
            },
        }
    }

    /// Whether the assets can be located: relative assets need a binary
    /// that lies in a folder.
    pub open spec fn can_resolve_assets(&self) -> bool {
        self.assets is Some && is_relative(self.assets->0) ==> parent_of(self.bin) is Some
    }

    /// The directory of the executable's own assets, if it has any.
    pub fn assets(&self) -> (dir: Option<PathBuf>)
        requires
            self.can_resolve_assets(),
        ensures
            dir == self.resolved_assets(),
    {
        match &self.assets {
            None => None,
            Some(d) => {
                if path_is_relative(d) {
                    match path_parent(&self.bin) {
                        Some(p) => Some(path_join(&p, d)),
                        None => None,
                    }
                } else {
                    Some(d.clone())
                }
            },
        }
    }

    /// The directory of the executable's own assets, if it has any and they
    /// can be located; `Err` where they are relative and the binary lies in
    /// no folder.
    pub fn checked_assets(&self) -> (dir: Result<Option<PathBuf>, ()>)
        ensures
            dir is Ok <==> self.can_resolve_assets(),
            dir is Ok ==> dir->Ok_0 == self.resolved_assets(),
    {
        let located = match &self.assets {
            None => true,
            Some(d) => !path_is_relative(d) || path_parent(&self.bin).is_some(),
        };
        if located {
            Ok(self.assets())
        } else {
            Err(())
        }
    }
}

} // verus!
