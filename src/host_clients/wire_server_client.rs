use crate::redirector::{decimal, decimal_text};
use vstd::prelude::*;

verus! {

/// Relative address of the telemetry endpoint.
pub const TELEMETRY_DATA_URI: &'static str = "machine/?comp=telemetrydata";

/// Relative address of the goal state endpoint.
pub const GOALSTATE_URI: &'static str = "machine?comp=goalstate";

/// Protocol version the wire server is spoken to with.
pub const WIRE_SERVER_VERSION: &'static str = "2012-11-30";

/// Where the wire server listens.
pub struct WireServerClient {
    ip: String,
    port: u16,
}

/// `http://<ip>:<port>/<uri>`.
pub open spec fn endpoint_url(ip: Seq<char>, port: u16, uri: Seq<char>) -> Seq<char> {
    "http://"@ + ip + seq![':'] + decimal(port as nat) + seq!['/'] + uri
}

impl WireServerClient {
    /// A client of the wire server at `ip` and `port`.
    pub fn new(ip: &str, port: u16) -> (r: WireServerClient)
        ensures
            r.ip() == ip@,
            r.port() == port,
    {
        WireServerClient { ip: String::from_str(ip), port }
    }

    pub closed spec fn ip(&self) -> Seq<char> {
        self.ip@
    }

    pub closed spec fn port(&self) -> u16 {
        self.port
    }

    fn url(&self, uri: &str) -> (r: String)
        ensures
            r@ == endpoint_url(self.ip(), self.port(), uri@),
    {
        let mut url = String::from_str("http://");
        url.append(self.ip.as_str());
        url.append(":");
        url.append(decimal_text(self.port as u32).as_str());
        url.append("/");
        url.append(uri);
        proof {
            reveal_strlit(":");
            reveal_strlit("/");
        }
        url
    }

    /// Address of the telemetry endpoint.
    pub fn telemetry_data_url(&self) -> (r: String)
        ensures
            r@ == endpoint_url(self.ip(), self.port(), TELEMETRY_DATA_URI@),
    {
        self.url(TELEMETRY_DATA_URI)
    }

    /// Address of the goal state endpoint.
    pub fn goalstate_url(&self) -> (r: String)
        ensures
            r@ == endpoint_url(self.ip(), self.port(), GOALSTATE_URI@),
    {
        self.url(GOALSTATE_URI)
    }

    /// Whether telemetry data has to be sent at all: empty data is not.
    pub fn should_send_telemetry(xml_data: &str) -> (r: bool)
        ensures
            r == (xml_data@.len() > 0),
    {
        xml_data.unicode_len() > 0
    }
}

} // verus!
