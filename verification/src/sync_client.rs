//! Configuration for the file-to-clipboard sync client and the derivation
//! of the URL it polls. The HTTP polling and clipboard writing live with
//! the host program; the library states what they run on.

use vstd::prelude::*;
use vstd::string::StringExecFns;

verus! {

/// How the sync client is run: where to poll, how often, and which file
/// to ask the server for.
#[derive(Debug)]
pub struct ClientConfig {
    /// Base address of the server, e.g. a local HTTP endpoint.
    pub http_address: String,
    /// Path appended to the base address.
    pub endpoint: String,
    /// Poll interval in seconds.
    pub interval: u64,
    /// The file whose contents are fetched.
    pub file_path: String,
}

impl Default for ClientConfig {
    /// The stock client setup: a local server, its file endpoint, a
    /// five-second interval, and a default content file.
    fn default() -> (r: Self)
        ensures
            r.http_address@ == "http://localhost:3000"@,
            r.endpoint@ == "/file"@,
            r.interval == 5,
            r.file_path@ == "content.txt"@,
    {
        ClientConfig {
            http_address: String::from_str("http://localhost:3000"),
            endpoint: String::from_str("/file"),
            interval: 5,
            file_path: String::from_str("content.txt"),
        }
    }
}

/// The full URL the client polls: the base address with the endpoint
/// appended, exactly.
pub fn build_url(config: &ClientConfig) -> (r: String)
    ensures
        r@ == config.http_address@ + config.endpoint@,
{
    config.http_address.clone().concat(config.endpoint.as_str())
}

} // verus!
