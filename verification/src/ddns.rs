//! The dynamic DNS updater: whether a query is made, to which address, and how
//! its answer is read.

use vstd::prelude::*;
use vstd::string::StringExecFns;

verus! {

/// The stored credentials of the dynamic DNS service.
#[derive(Clone, Debug, PartialEq, Eq)]
pub struct Config {
    pub host: String,
    pub username: String,
    pub password: String,
}

/// What one update does.
#[derive(Clone, Debug, PartialEq, Eq)]
pub enum Request {
    /// Credentials are missing: nothing is sent.
    Skip,
    /// One GET with basic authentication.
    Get { url: String, username: String, password: String },
}

/// The service answered with a status that is no success.
#[derive(Clone, Copy, Debug, PartialEq, Eq, Structural)]
pub struct QueryFailed {
    pub status: u16,
}

/// The address that an update for `host` is sent to.
pub open spec fn update_url(host: Seq<char>) -> Seq<char> {
    "https://ydns.io/api/v1/update/"@ + "?host="@ + host
}

/// The decisions of the updater. Storage and network are the caller's.
pub struct Manager {}

impl Manager {
    pub fn new() -> (manager: Self) {
        Manager {  }
    }

    /// Decides on one update: none without a host or without a user name,
    /// else one query for the host, with the stored credentials.
    pub fn update_my_ip(&self, config: Config) -> (request: Request)
        ensures
            config.host@.len() == 0 || config.username@.len() == 0 ==> request == Request::Skip,
            config.host@.len() > 0 && config.username@.len() > 0 ==> (request matches Request::Get {
                url,
                username,
                password,
            } && url@ == update_url(config.host@) && username == config.username && password
                == config.password),
    {
        if config.host.as_str().is_empty() || config.username.as_str().is_empty() {
            return Request::Skip;
        }
        let url = String::from_str("https://ydns.io/api/v1/update/").concat("?host=").concat(
            config.host.as_str(),
        );
        Request::Get { url, username: config.username, password: config.password }
    }

    /// Reads the answer's status: 200 to 299 is success, anything else fails
    /// the update with that status.
    pub fn check_status(&self, status: u16) -> (outcome: Result<(), QueryFailed>)
        ensures
            200 <= status < 300 <==> outcome is Ok,
            outcome matches Err(e) ==> e.status == status,
    {
        if 200 <= status && status < 300 {
            Ok(())
        } else {
            Err(QueryFailed { status })
        }
    }
}

} // verus!
