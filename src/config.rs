//! The configuration handed to the browser client.

use vstd::prelude::*;
use vstd::string::StringExecFns;
use crate::json::{json_array, push_json_array, EncodeError};

verus! {

/// The one Prometheus server the client is pointed at.
pub const DEFAULT_PROMETHEUS_URL: &'static str = "http://localhost:9090";

/// Settings the browser client reads from `/config`.
pub struct ClientConfig {
    pub prometheus_urls: Vec<String>,
}

impl View for ClientConfig {
    type V = Seq<Seq<char>>;

    open spec fn view(&self) -> Seq<Seq<char>> {
        self.prometheus_urls.deep_view()
    }
}

/// The opening of the configuration object, up to its one field's value.
pub open spec fn config_prefix() -> Seq<char> {
    "{\"prometheus_urls\":"@
}

/// The compact JSON object `{"prometheus_urls":[...]}` for `urls`.
pub open spec fn config_document(urls: Seq<Seq<char>>) -> Seq<char> {
    config_prefix() + json_array(urls) + "}"@
}

impl ClientConfig {
    /// The configuration served to every client: the default Prometheus URL
    /// alone.
    pub fn new() -> (r: ClientConfig)
        ensures
            r@ == seq![DEFAULT_PROMETHEUS_URL@],
    {
        let mut urls: Vec<String> = Vec::new();
        urls.push(DEFAULT_PROMETHEUS_URL.to_owned());
        proof {
            assert(urls.deep_view() =~= seq![DEFAULT_PROMETHEUS_URL@]);
        }
        ClientConfig { prometheus_urls: urls }
    }

    /// The configuration as compact JSON text.
    pub fn to_json(&self) -> (r: Result<String, EncodeError>)
        ensures
            r is Ok,
            r matches Ok(j) ==> j@ == config_document(self@),
    {
        let mut out = String::new();
        out.append("{\"prometheus_urls\":");
        match push_json_array(&mut out, &self.prometheus_urls) {
            Ok(()) => {},
            Err(e) => {
                return Err(e);
            },
        }
        out.append("}");
        Ok(out)
    }
}

} // verus!
