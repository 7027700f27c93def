//! Configuration: the token and collection identifier the synchronizer
//! needs, the location of the config file, and the exact text written to it.
//! Reading and writing the file itself is the caller's business.

use vstd::prelude::*;
use crate::wire::json_string;

verus! {

/// What the synchronizer is configured with: the service token and the
/// identifier of the collection that holds the journal pages.
pub struct Config {
    pub notion_token: String,
    pub database_id: String,
}

/// Where the config file lives, relative to the home directory.
pub open spec fn config_rel_path_spec() -> Seq<char> {
    ".gj/config.json"@
}

/// The config file path relative to the home directory.
pub fn config_rel_path() -> (r: &'static str)
    ensures
        r@ == config_rel_path_spec(),
{
    ".gj/config.json"
}

/// The exact text of a saved config file.
pub open spec fn config_json_spec(c: Config) -> Seq<char> {
    "{\n  \"database_id\": "@ + json_string(c.database_id@) + ",\n  \"notion_token\": "@
        + json_string(c.notion_token@) + "\n}"@
}

/// Renders a config as the JSON text that is written to the config file.
pub fn config_to_json(c: &Config) -> (r: String)
    ensures
        r@ == config_json_spec(*c),
{
    let mut r = String::new();
    r.append("{\n  \"database_id\": ");
    crate::wire::append_json_string(&mut r, c.database_id.as_str());
    r.append(",\n  \"notion_token\": ");
    crate::wire::append_json_string(&mut r, c.notion_token.as_str());
    r.append("\n}");
    proof {
        assert(r@ =~= config_json_spec(*c));
    }
    r
}

/// Relies on `dirs::home_dir`: the user's home directory, where the
/// platform names one.
#[verifier::external_body]
fn home_dir_string() -> (r: Option<String>) {
    dirs::home_dir().and_then(|p| p.to_str().map(|s| s.to_string()))
}

/// Relies on `std::path::Path::exists`: whether anything is at the path on
/// disk right now.
#[verifier::external_body]
fn path_exists(p: &str) -> (r: bool) {
    std::path::Path::new(p).exists()
}

/// The full path of the config file under the given home directory.
pub fn config_abs_path(home: &str) -> (r: String)
    ensures
        r@ == home@ + "/"@ + config_rel_path_spec(),
{
    let mut p = String::from_str(home);
    p.append("/");
    p.append(config_rel_path());
    proof {
        assert(p@ =~= home@ + "/"@ + config_rel_path_spec());
    }
    p
}

/// Whether a config file is already present under the home directory: the
/// probed path is the config file's path under the user's home.
pub fn config_exists() -> bool {
    match home_dir_string() {
        None => false,
        Some(home) => {
            let p = config_abs_path(home.as_str());
            path_exists(p.as_str())
        },
    }
}

} // verus!
