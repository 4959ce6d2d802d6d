use vstd::prelude::*;

use crate::anonymous_ip::AnonymousIpv4;
use crate::client_req::opt_string_view;
use crate::consent::{is_id_char, CookieConsent, CookieConsentPref, ID_LENGTH};
use crate::geolocation::Geolocation;
use crate::server::{cors_target, header_origin, opt_str_view, served_domain, OriginProxy};

verus! {

/// The HTTP answer to a consent submission.
#[derive(PartialEq, Eq, Debug)]
pub struct ConsentReply {
    pub status: u16,
    pub body: String,
    /// The origin that cross-origin headers allow; none means no such headers.
    pub cors_origin: Option<String>,
}

/// Whether `reply` has the given status, body and cross-origin target.
pub open spec fn is_reply(reply: ConsentReply, status: u16, body: Seq<char>, cors: Option<Seq<char>>) -> bool {
    &&& reply.status == status
    &&& reply.body@ == body
    &&& opt_string_view(reply.cors_origin) == cors
}

/// The first decision on a submission, made on its `Origin` header and the
/// configured mode alone: the origin to serve, for a request whose body may be
/// read, or else an empty 403.
pub fn on_request(origin_header: Option<&str>, local_mode: bool) -> (r: Result<OriginProxy, ConsentReply>)
    ensures
        (header_origin(opt_str_view(origin_header)) is Some || local_mode) ==> (r matches Ok(proxy)
            && proxy@ == header_origin(opt_str_view(origin_header))),
        !(header_origin(opt_str_view(origin_header)) is Some || local_mode) ==> (r matches Err(reply)
            && is_reply(reply, 403, Seq::empty(), None)),
{
    match OriginProxy::from_header(origin_header, local_mode) {
        Some(proxy) => Ok(proxy),
        None => Err(ConsentReply { status: 403, body: String::new(), cors_origin: None }),
    }
}

/// The decision once the body has been read: a body that did not parse as
/// preferences is answered with 400 and the parser's complaint; otherwise the
/// record of the decision is built, to be stored before the answer.
pub fn on_body(
    origin: OriginProxy,
    body: Result<CookieConsentPref, String>,
    geolocation: Geolocation,
    anonymous_ip: Option<AnonymousIpv4>,
    user_agent: String,
) -> (r: Result<(OriginProxy, CookieConsent), ConsentReply>)
    ensures
        match body {
            Ok(pref) => r matches Ok((proxy, consent)) && {
                &&& proxy@ == origin@
                &&& consent.spec_id().len() == ID_LENGTH
                &&& forall|i: int| 0 <= i < consent.spec_id().len() ==> is_id_char(#[trigger] consent.spec_id()[i])
                &&& consent.spec_value().spec_domain() == served_domain(origin@)
                &&& consent.spec_value().spec_pref() == pref
                &&& consent.spec_value().spec_created_at().wf()
                &&& consent.spec_value().spec_geolocation() == geolocation
                &&& consent.spec_value().spec_anonymous_ip() == anonymous_ip
                &&& consent.spec_value().spec_user_agent() == user_agent@
            },
            Err(complaint) => r matches Err(reply)
                && is_reply(reply, 400, "Invalid JSON body: "@ + complaint@, None),
        },
{
    match body {
        Ok(pref) => {
            let domain = origin.clone().domain();
            let consent = CookieConsent::new(domain, pref, geolocation, anonymous_ip, user_agent);
            Ok((origin, consent))
        },
        Err(complaint) => {
            let mut text = String::from_str("Invalid JSON body: ");
            text.append(complaint.as_str());
            Err(ConsentReply { status: 400, body: text, cors_origin: None })
        },
    }
}

/// The answer once the store has been tried: the stored record, as `record_json`,
/// with cross-origin headers for an accepted origin; or a generic 500 that
/// tells nothing of the storage error.
pub fn on_stored(origin: OriginProxy, stored: bool, record_json: String) -> (r: ConsentReply)
    ensures
        stored ==> is_reply(r, 200, record_json@, cors_target(origin@)),
        !stored ==> is_reply(r, 500, "Fail to store cookie consent"@, None),
{
    if stored {
        ConsentReply { status: 200, body: record_json, cors_origin: origin.cors_origin() }
    } else {
        ConsentReply { status: 500, body: String::from_str("Fail to store cookie consent"), cors_origin: None }
    }
}

} // verus!
