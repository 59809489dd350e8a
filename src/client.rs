//! The state of one authenticated session with a device's endpoints.

use crate::headers::{authenticated_header_map, authenticated_headers, authorization_text, header_values, is_header_value_text, HeaderError};
use crate::login::{login_outcome, token_from_login_response, LoginError};
use crate::url::{endpoint_url_text, join_endpoint, url_prefix, url_prefix_text};
use reqwest::header::HeaderMap;
use vstd::prelude::*;

verus! {

/// What a session holds: the device it speaks to, and the token it speaks with.
pub struct SessionView {
    pub simulation_id: Seq<char>,
    pub device_id: Seq<char>,
    pub domain_name: Seq<char>,
    pub jwt_token: Seq<char>,
}

/// A session with the endpoints of one device of one simulation, opened by a
/// login. The token is set once, when the session is made.
pub struct DeviceAPIClient {
    simulation_id: String,
    device_id: String,
    domain_name: String,
    jwt_token: String,
    url_prefix: String,
}

impl View for DeviceAPIClient {
    type V = SessionView;

    closed spec fn view(&self) -> SessionView {
        SessionView {
            simulation_id: self.simulation_id@,
            device_id: self.device_id@,
            domain_name: self.domain_name@,
            jwt_token: self.jwt_token@,
        }
    }
}

impl DeviceAPIClient {
    /// The URL prefix is the one that the domain and the two ids determine.
    #[verifier::type_invariant]
    spec fn prefix_matches(&self) -> bool {
        self.url_prefix@ == url_prefix_text(self.domain_name@, self.simulation_id@, self.device_id@)
    }

    /// The session that the login reply `login_response` opens for the device
    /// `device_id` of the simulation `simulation_id` on `domain_name`; an error
    /// where the reply yields no token.
    pub fn from_login_response(
        simulation_id: String,
        device_id: String,
        domain_name: String,
        login_response: &[u8],
    ) -> (r: Result<DeviceAPIClient, LoginError>)
        ensures
            match login_outcome(login_response@) {
                Ok(t) => r matches Ok(c) && c@ == (SessionView {
                    simulation_id: simulation_id@,
                    device_id: device_id@,
                    domain_name: domain_name@,
                    jwt_token: t,
                }),
                Err(e) => r == Err::<DeviceAPIClient, LoginError>(e),
            },
    {
        let jwt_token = match token_from_login_response(login_response) {
            Ok(t) => t,
            Err(e) => {
                return Err(e);
            },
        };
        let prefix = url_prefix(domain_name.as_str(), simulation_id.as_str(), device_id.as_str());
        Ok(DeviceAPIClient { simulation_id, device_id, domain_name, jwt_token, url_prefix: prefix })
    }

    /// The token that the login handed out.
    pub fn jwt_token(&self) -> (r: &String)
        ensures
            r@ == self@.jwt_token,
    {
        &self.jwt_token
    }

    /// The URL under which the device's endpoints lie.
    pub fn url_prefix(&self) -> (r: &String)
        ensures
            r@ == url_prefix_text(self@.domain_name, self@.simulation_id, self@.device_id),
    {
        proof {
            use_type_invariant(self);
        }
        &self.url_prefix
    }

    /// The URL of the endpoint `endpoint_suffix`: the suffix appended verbatim
    /// to the URL prefix.
    pub fn endpoint_url(&self, endpoint_suffix: &str) -> (r: String)
        ensures
            r@ == endpoint_url_text(
                self@.domain_name,
                self@.simulation_id,
                self@.device_id,
                endpoint_suffix@,
            ),
    {
        proof {
            use_type_invariant(self);
        }
        join_endpoint(self.url_prefix.as_str(), endpoint_suffix)
    }

    /// The headers of a request made in this session: the token after `JWT `
    /// as its authorization, JSON as its content type.
    pub fn construct_headers(&self) -> (r: Result<HeaderMap, HeaderError>)
        ensures
            r is Ok <==> is_header_value_text(authorization_text(self@.jwt_token)),
            r matches Ok(h) ==> header_values(h) == authenticated_headers(self@.jwt_token),
    {
        authenticated_header_map(self.jwt_token.as_str())
    }
}

} // verus!
