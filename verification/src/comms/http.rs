//! Addresses of an HTTP transport's endpoints. Posting to them happens
//! outside the library.

use vstd::prelude::*;
use vstd::string::*;
use crate::llm::provider::new_client;

verus! {

/// A transport that reaches agents through an HTTP service.
pub struct HttpTransport {
    client: reqwest::Client,
    base_url: String,
}

impl HttpTransport {
    /// The service's base address.
    pub closed spec fn base(&self) -> Seq<char> {
        self.base_url@
    }

    /// A transport for the service at `base_url`; the error where no HTTP
    /// client can be built on this platform.
    pub fn new(base_url: &str) -> (r: Result<HttpTransport, reqwest::Error>)
        ensures
            r matches Ok(t) ==> t.base() == base_url@,
    {
        match new_client() {
            Ok(client) => Ok(HttpTransport { client, base_url: String::from_str(base_url) }),
            Err(e) => Err(e),
        }
    }

    /// The HTTP client that requests are sent with.
    pub closed spec fn http_client(&self) -> reqwest::Client {
        self.client
    }

    /// The HTTP client.
    pub fn client(&self) -> (c: &reqwest::Client)
        ensures
            *c == self.http_client(),
    {
        &self.client
    }

    /// Where messages to an agent are posted.
    pub fn get_agent_url(&self, agent_id: &str) -> (u: String)
        ensures
            u@ == self.base() + "/api/agents/"@ + agent_id@ + "/messages"@,
    {
        let mut u = self.base_url.clone();
        u.append("/api/agents/");
        u.append(agent_id);
        u.append("/messages");
        u
    }

    /// Where requests to an agent are posted.
    pub fn request_url(&self, agent_id: &str) -> (u: String)
        ensures
            u@ == self.base() + "/api/agents/"@ + agent_id@ + "/request"@,
    {
        let mut u = self.base_url.clone();
        u.append("/api/agents/");
        u.append(agent_id);
        u.append("/request");
        u
    }

    /// Where broadcasts to a topic are posted.
    pub fn topic_url(&self, topic: &str) -> (u: String)
        ensures
            u@ == self.base() + "/api/topics/"@ + topic@,
    {
        let mut u = self.base_url.clone();
        u.append("/api/topics/");
        u.append(topic);
        u
    }

    /// The transport's name, `http`.
    pub fn name(&self) -> (n: &str)
        ensures
            n@ == "http"@,
    {
        "http"
    }
}

} // verus!
