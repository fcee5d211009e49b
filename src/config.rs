use vstd::prelude::*;

verus! {

/// Settings read once at start and handed to the sharing steps.
#[derive(Debug, Default, PartialEq, Eq)]
pub struct AppConfig {
    /// Endpoint of the storage service that accepts new secrets.
    pub api_url: String,
}

/// Name of the settings file, inside the user's home directory.
pub open spec fn config_file_name() -> Seq<char> {
    "/.ots.yaml"@
}

/// Path of the settings file under a home directory.
pub fn config_file_path(home: &str) -> (r: String)
    ensures
        r@ == home@ + config_file_name(),
{
    let mut path = String::from_str(home);
    path.append("/.ots.yaml");
    path
}

} // verus!
