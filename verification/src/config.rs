//! Process configuration as plain values.

use vstd::prelude::*;

verus! {

/// Directory served when no static-asset directory is configured.
pub const DEFAULT_STATIC_HTML: &'static str = "./dev-html";

/// Settings the gateway is started with.
#[derive(Debug, Clone)]
pub struct Config {
    /// `host:port` the server listens on.
    pub bind_address: String,
    /// Client id presented to the upstream API.
    pub client_id: String,
    /// Client secret presented to the upstream API.
    pub client_secret: String,
    /// Directory holding the front end's static files, if configured.
    pub static_html: Option<String>,
}

impl Config {
    /// The configured static-asset directory, or the default when none is set.
    pub open spec fn spec_static_html(&self) -> Seq<char> {
        match self.static_html {
            Some(dir) => dir@,
            None => DEFAULT_STATIC_HTML@,
        }
    }

    /// Directory from which static files are served.
    pub fn static_html(&self) -> (dir: &str)
        ensures
            dir@ == self.spec_static_html(),
    {
        match &self.static_html {
            Some(dir) => dir.as_str(),
            None => DEFAULT_STATIC_HTML,
        }
    }
}

} // verus!
