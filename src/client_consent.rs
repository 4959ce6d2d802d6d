use vstd::prelude::*;

use crate::anonymous_ip::AnonymousIpv4;
use crate::consent::{is_id_char, CookieConsent, CookieConsentPref, Domain, ID_LENGTH};
use crate::geolocation::Geolocation;

verus! {

/// A consent decision as a client states it: the domain and its choices.
#[derive(PartialEq, Eq, Structural, Clone, Copy, Debug)]
pub struct CookieConsentClientRequest {
    pub domain: Domain,
    pub pref: CookieConsentPref,
}

impl CookieConsentClientRequest {
    /// Records this decision with what the request tells of its sender.
    pub fn to_cookie_consent(
        self,
        geolocation: Geolocation,
        anonymous_ip: Option<AnonymousIpv4>,
        user_agent: String,
    ) -> (r: CookieConsent)
        ensures
            r.spec_id().len() == ID_LENGTH,
            forall|i: int| 0 <= i < r.spec_id().len() ==> is_id_char(#[trigger] r.spec_id()[i]),
            r.spec_value().spec_domain() == self.domain,
            r.spec_value().spec_pref() == self.pref,
            r.spec_value().spec_created_at().wf(),
            r.spec_value().spec_geolocation() == geolocation,
            r.spec_value().spec_anonymous_ip() == anonymous_ip,
            r.spec_value().spec_user_agent() == user_agent@,
    {
        CookieConsent::new(self.domain, self.pref, geolocation, anonymous_ip, user_agent)
    }
}

} // verus!
