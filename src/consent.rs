use vstd::prelude::*;

use crate::anonymous_ip::AnonymousIpv4;
use crate::geolocation::Geolocation;

verus! {

/// The registrable domains whose sites may record a consent decision.
#[derive(PartialEq, Eq, Structural, Clone, Copy, Debug)]
pub enum Domain {
    MathSweCom,
    MathSoftware,
    MathSoftwareEngineer,
}

impl Domain {
    /// The canonical domain name of this domain.
    pub open spec fn name(self) -> Seq<char> {
        match self {
            Domain::MathSweCom => "mathswe.com"@,
            Domain::MathSoftware => "math.software"@,
            Domain::MathSoftwareEngineer => "mathsoftware.engineer"@,
        }
    }

    pub fn to_domain_name(&self) -> (r: String)
        ensures
            r@ == self.name(),
    {
        match self {
            Domain::MathSweCom => String::from_str("mathswe.com"),
            Domain::MathSoftware => String::from_str("math.software"),
            Domain::MathSoftwareEngineer => String::from_str("mathsoftware.engineer"),
        }
    }

    /// Every domain, in the order in which origins are matched against them.
    pub fn all() -> (r: Vec<Domain>)
        ensures
            r@ == all_domains(),
    {
        let mut r: Vec<Domain> = Vec::new();
        r.push(Domain::MathSweCom);
        r.push(Domain::MathSoftware);
        r.push(Domain::MathSoftwareEngineer);
        r
    }
}

/// The approved domains in their fixed order; the first is the default domain.
pub open spec fn all_domains() -> Seq<Domain> {
    seq![Domain::MathSweCom, Domain::MathSoftware, Domain::MathSoftwareEngineer]
}

/// An instant in UTC: whole seconds since the Unix epoch, and nanoseconds
/// past that second (a leap second counts up to two seconds of them).
#[derive(PartialEq, Eq, Structural, Clone, Copy, Debug)]
pub struct Timestamp {
    pub seconds: i64,
    pub nanoseconds: u32,
}

impl Timestamp {
    pub open spec fn wf(self) -> bool {
        self.nanoseconds < 2_000_000_000
    }
}

/// Relies on chrono's `Utc::now`, read out with `DateTime::timestamp` and
/// `DateTime::timestamp_subsec_nanos`. The nanoseconds exceed 999,999,999 only
/// in a leap second, and chrono never makes a time with 2,000,000,000 or more.
#[verifier::external_body]
fn now_utc() -> (r: Timestamp)
    ensures
        r.wf(),
{
    let now = chrono::Utc::now();
    Timestamp { seconds: now.timestamp(), nanoseconds: now.timestamp_subsec_nanos() }
}

/// The number of characters of a generated record identifier.
pub const ID_LENGTH: usize = 21;

/// The URL-safe characters that generated identifiers are made of.
pub open spec fn is_id_char(c: char) -> bool {
    ||| c == '_'
    ||| c == '-'
    ||| '0' <= c <= '9'
    ||| 'a' <= c <= 'z'
    ||| 'A' <= c <= 'Z'
}

/// Relies on `nanoid::format` with nanoid's default random source and its
/// URL-safe alphabet: it returns `size` characters of that alphabet, drawn at
/// random. It never returns for a size of zero, and computes `8 * size`.
#[verifier::external_body]
fn random_id(size: usize) -> (r: String)
    requires
        0 < size,
        8 * size <= usize::MAX,
    ensures
        r@.len() == size,
        forall|i: int| 0 <= i < r@.len() ==> is_id_char(#[trigger] r@[i]),
{
    nanoid::format(nanoid::rngs::default, &nanoid::alphabet::SAFE, size)
}

/// The consent choices of a user, one flag for each category of cookies.
#[derive(PartialEq, Eq, Structural, Clone, Copy, Debug)]
pub struct CookieConsentPref {
    pub essential: bool,
    pub functional: bool,
    pub analytics: bool,
    pub targeting: bool,
}

impl CookieConsentPref {
    pub fn new(essential: bool, functional: bool, analytics: bool, targeting: bool) -> (r: Self)
        ensures
            r == (CookieConsentPref { essential, functional, analytics, targeting }),
    {
        CookieConsentPref { essential, functional, analytics, targeting }
    }
}

/// Everything a consent record holds but its identifier: what is stored under
/// that identifier.
#[derive(PartialEq, Debug)]
pub struct CookieConsentValue {
    domain: Domain,
    pref: CookieConsentPref,
    created_at: Timestamp,
    geolocation: Geolocation,
    anonymous_ip: Option<AnonymousIpv4>,
    user_agent: String,
}

impl CookieConsentValue {
    pub closed spec fn spec_domain(&self) -> Domain {
        self.domain
    }

    pub closed spec fn spec_pref(&self) -> CookieConsentPref {
        self.pref
    }

    pub closed spec fn spec_created_at(&self) -> Timestamp {
        self.created_at
    }

    pub closed spec fn spec_geolocation(&self) -> Geolocation {
        self.geolocation
    }

    pub closed spec fn spec_anonymous_ip(&self) -> Option<AnonymousIpv4> {
        self.anonymous_ip
    }

    pub closed spec fn spec_user_agent(&self) -> Seq<char> {
        self.user_agent@
    }

    pub fn new(
        domain: Domain,
        pref: CookieConsentPref,
        created_at: Timestamp,
        geolocation: Geolocation,
        anonymous_ip: Option<AnonymousIpv4>,
        user_agent: String,
    ) -> (r: Self)
        ensures
            r.spec_domain() == domain,
            r.spec_pref() == pref,
            r.spec_created_at() == created_at,
            r.spec_geolocation() == geolocation,
            r.spec_anonymous_ip() == anonymous_ip,
            r.spec_user_agent() == user_agent@,
    {
        CookieConsentValue { domain, pref, created_at, geolocation, anonymous_ip, user_agent }
    }

    pub fn domain(&self) -> (r: Domain)
        ensures
            r == self.spec_domain(),
    {
        self.domain
    }

    pub fn pref(&self) -> (r: CookieConsentPref)
        ensures
            r == self.spec_pref(),
    {
        self.pref
    }

    pub fn created_at(&self) -> (r: Timestamp)
        ensures
            r == self.spec_created_at(),
    {
        self.created_at
    }

    pub fn geolocation(&self) -> (r: &Geolocation)
        ensures
            *r == self.spec_geolocation(),
    {
        &self.geolocation
    }

    pub fn anonymous_ip(&self) -> (r: &Option<AnonymousIpv4>)
        ensures
            *r == self.spec_anonymous_ip(),
    {
        &self.anonymous_ip
    }

    pub fn user_agent(&self) -> (r: &str)
        ensures
            r@ == self.spec_user_agent(),
    {
        self.user_agent.as_str()
    }
}

impl Clone for CookieConsentValue {
    fn clone(&self) -> (r: Self)
        ensures
            r == *self,
    {
        CookieConsentValue {
            domain: self.domain,
            pref: self.pref,
            created_at: self.created_at,
            geolocation: self.geolocation.clone(),
            anonymous_ip: self.anonymous_ip.clone(),
            user_agent: self.user_agent.clone(),
        }
    }
}

/// One recorded consent decision, under a unique identifier. It is never
/// changed once made.
#[derive(PartialEq, Debug)]
pub struct CookieConsent {
    id: String,
    value: CookieConsentValue,
}

impl CookieConsent {
    pub closed spec fn spec_id(&self) -> Seq<char> {
        self.id@
    }

    pub closed spec fn spec_value(&self) -> CookieConsentValue {
        self.value
    }

    /// A new record of the given decision, made now, under a fresh random
    /// identifier.
    pub fn new(
        domain: Domain,
        pref: CookieConsentPref,
        geolocation: Geolocation,
        anonymous_ip: Option<AnonymousIpv4>,
        user_agent: String,
    ) -> (r: Self)
        ensures
            r.spec_id().len() == ID_LENGTH,
            forall|i: int| 0 <= i < r.spec_id().len() ==> is_id_char(#[trigger] r.spec_id()[i]),
            r.spec_value().spec_domain() == domain,
            r.spec_value().spec_pref() == pref,
            r.spec_value().spec_created_at().wf(),
            r.spec_value().spec_geolocation() == geolocation,
            r.spec_value().spec_anonymous_ip() == anonymous_ip,
            r.spec_value().spec_user_agent() == user_agent@,
    {
        let id = random_id(ID_LENGTH);
        let created_at = now_utc();
        let value = CookieConsentValue::new(
            domain,
            pref,
            created_at,
            geolocation,
            anonymous_ip,
            user_agent,
        );
        CookieConsent::from_parts(id, value)
    }

    /// The record with the given identifier and contents.
    pub fn from_parts(id: String, value: CookieConsentValue) -> (r: Self)
        ensures
            r.spec_id() == id@,
            r.spec_value() == value,
    {
        CookieConsent { id, value }
    }

    /// The key and the value under which the record is stored: its identifier,
    /// and everything else it holds.
    pub fn to_kv(&self) -> (r: (String, CookieConsentValue))
        ensures
            r.0@ == self.spec_id(),
            r.1 == self.spec_value(),
    {
        (self.id.clone(), self.value.clone())
    }

    pub fn id(&self) -> (r: &str)
        ensures
            r@ == self.spec_id(),
    {
        self.id.as_str()
    }

    pub fn value(&self) -> (r: &CookieConsentValue)
        ensures
            *r == self.spec_value(),
    {
        &self.value
    }
}

} // verus!
