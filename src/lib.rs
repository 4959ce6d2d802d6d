//! Cookie-consent recording for a family of web properties: origin
//! validation against a closed set of domains, a local-development bypass,
//! IPv4 anonymisation and assembly of the immutable consent record.

pub mod anonymous_ip;
pub mod client_consent;
pub mod client_req;
pub mod consent;
pub mod cookie_consent;
pub mod geolocation;
pub mod server;

pub use anonymous_ip::AnonymousIpv4;
pub use client_consent::CookieConsentClientRequest;
pub use client_req::Origin;
pub use cookie_consent::{on_body, on_request, on_stored, ConsentReply};
pub use consent::{CookieConsent, CookieConsentPref, CookieConsentValue, Domain, Timestamp};
pub use geolocation::Geolocation;
pub use server::OriginProxy;
