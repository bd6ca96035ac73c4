//! Minecraft launchers whose instance data can be scanned.
use vstd::prelude::*;
use vstd::string::StringExecFns;

verus! {

#[derive(PartialEq, Eq, Structural, Clone, Copy, Debug)]
pub enum Launcher {
    Modrinth,
    Prism,
    ATLauncher,
    Vanilla,
    CustomDirectory,
}

/// Where a launcher keeps its data, as path components below the user's
/// configuration directory; none for a directory the user picks.
pub open spec fn data_subpath_of(l: Launcher) -> Option<Seq<Seq<char>>> {
    match l {
        Launcher::Modrinth => Some(seq!["com.modrinth.theseus"@, "profiles"@]),
        Launcher::Prism => Some(seq!["PrismLauncher"@, "instances"@]),
        Launcher::ATLauncher => Some(seq!["ATLauncher"@]),
        Launcher::Vanilla => Some(seq![".minecraft"@]),
        Launcher::CustomDirectory => None,
    }
}

impl Launcher {
    /// The launcher's data directory, as components to join below the user's
    /// configuration directory; `None` for a custom directory.
    pub fn data_subpath(&self) -> (r: Option<Vec<String>>)
        ensures
            match data_subpath_of(*self) {
                Some(p) => r is Some && r->Some_0@.map_values(|c: String| c@) == p,
                None => r is None,
            },
    {
        let mut parts: Vec<String> = Vec::new();
        match self {
            Launcher::Modrinth => {
                parts.push(String::from_str("com.modrinth.theseus"));
                parts.push(String::from_str("profiles"));
            },
            Launcher::Prism => {
                parts.push(String::from_str("PrismLauncher"));
                parts.push(String::from_str("instances"));
            },
            Launcher::ATLauncher => {
                parts.push(String::from_str("ATLauncher"));
            },
            Launcher::Vanilla => {
                parts.push(String::from_str(".minecraft"));
            },
            Launcher::CustomDirectory => {
                return None;
            },
        }
        proof {
            let p = data_subpath_of(*self)->Some_0;
            assert(parts@.map_values(|c: String| c@) =~= p);
        }
        Some(parts)
    }
}

} // verus!
