//! Where a game's files live under the front end's base directory.
use vstd::prelude::*;

verus! {

/// The directory of the per-game configuration files.
pub fn config_dir(base_path: &str) -> (r: String)
    ensures
        r@ == base_path@ + "/config"@,
{
    let mut s = String::from_str(base_path);
    s.append("/config");
    s
}

/// The configuration file of game `swf_name`.
pub fn config_file_path(base_path: &str, swf_name: &str) -> (r: String)
    ensures
        r@ == base_path@ + "/config"@ + "/"@ + swf_name@ + ".ron"@,
{
    let mut s = config_dir(base_path);
    s.append("/");
    s.append(swf_name);
    s.append(".ron");
    s
}

/// The movie file of game `swf_name`.
pub fn swf_path(base_path: &str, swf_name: &str) -> (r: String)
    ensures
        r@ == base_path@ + "/swf/"@ + swf_name@ + ".swf"@,
{
    let mut s = String::from_str(base_path);
    s.append("/swf/");
    s.append(swf_name);
    s.append(".swf");
    s
}

/// The URL the player is told the movie of game `swf_name` comes from.
pub fn swf_url(base_path: &str, swf_name: &str) -> (r: String)
    ensures
        r@ == "file:///"@ + base_path@ + "/"@ + swf_name@ + ".swf"@,
{
    let mut s = String::from_str("file:///");
    s.append(base_path);
    s.append("/");
    s.append(swf_name);
    s.append(".swf");
    s
}

/// The directory where games keep their saved data.
pub fn storage_path(base_path: &str) -> (r: String)
    ensures
        r@ == base_path@ + "/"@ + "storage"@,
{
    let mut s = String::from_str(base_path);
    s.append("/");
    s.append("storage");
    s
}

} // verus!
