//! Where the embedded runtime finds packages installed in the project's
//! virtual environment.
use vstd::prelude::*;

verus! {

/// The host platforms that have a known package directory.
#[derive(Clone, Copy, Debug, PartialEq, Eq, Structural)]
pub enum Platform {
    Windows,
    Linux,
}

/// The package directory of `p`, relative to the working directory.
pub open spec fn package_dir(p: Platform) -> Seq<char> {
    match p {
        Platform::Windows => ".venv\\Lib\\site-packages"@,
        Platform::Linux => ".venv/lib/python3.12/site-packages/"@,
    }
}

/// The directory, relative to the working directory, where the embedded
/// runtime should look for packages first on platform `p`.
pub fn venv_packages_dir(p: Platform) -> (r: String)
    ensures
        r@ == package_dir(p),
{
    match p {
        Platform::Windows => String::from_str(".venv\\Lib\\site-packages"),
        Platform::Linux => String::from_str(".venv/lib/python3.12/site-packages/"),
    }
}

} // verus!
