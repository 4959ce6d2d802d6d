use cookie_consent::Domain::MathSweCom;
use cookie_consent::{
    AnonymousIpv4, CookieConsent, CookieConsentClientRequest, CookieConsentPref, CookieConsentValue,
    Geolocation, Timestamp,
};

fn dummy_ip() -> Option<AnonymousIpv4> {
    Some(AnonymousIpv4::from_ipv4([1, 1, 1, 1]))
}

fn dummy_geolocation() -> Geolocation {
    Geolocation::empty_with(chrono_tz::Tz::America__Tegucigalpa, String::from(""))
}

fn dummy_user_agent() -> String {
    "User Agent Is: Mozilla/5.0 (Windows NT 10.0; Win64; x64) AppleWebKit/537.36 (KHTML, like Gecko) Chrome/122.0.0.0 Safari/537.36 Edg/122.0.0.0"
        .to_string()
}

fn pref() -> CookieConsentPref {
    CookieConsentPref::new(true, false, true, false)
}

fn is_id_char(c: char) -> bool {
    c == '_' || c == '-' || c.is_ascii_digit() || c.is_ascii_lowercase() || c.is_ascii_uppercase()
}

#[test]
fn new_consent_keeps_what_it_was_given() {
    let consent = CookieConsent::new(MathSweCom, pref(), dummy_geolocation(), dummy_ip(), dummy_user_agent());
    let value = consent.value();

    assert_eq!(MathSweCom, value.domain());
    assert_eq!(pref(), value.pref());
    assert_eq!(&dummy_geolocation(), value.geolocation());
    assert_eq!(&dummy_ip(), value.anonymous_ip());
    assert_eq!(dummy_user_agent(), value.user_agent());
    assert!(value.created_at().nanoseconds < 2_000_000_000);
    assert!(value.created_at().seconds > 1_700_000_000);
}

#[test]
fn new_consent_gets_a_fresh_url_safe_id() {
    let first = CookieConsent::new(MathSweCom, pref(), dummy_geolocation(), None, String::new());
    let second = CookieConsent::new(MathSweCom, pref(), dummy_geolocation(), None, String::new());

    assert_eq!(21, first.id().chars().count());
    assert!(first.id().chars().all(is_id_char), "{}", first.id());
    assert_ne!(first.id(), second.id());
}

#[test]
fn storage_pair_is_id_and_everything_else() {
    let consent = CookieConsent::new(MathSweCom, pref(), dummy_geolocation(), dummy_ip(), dummy_user_agent());
    let (key, value) = consent.to_kv();

    assert_eq!(consent.id(), key);
    assert_eq!(consent.value(), &value);
    assert_eq!(None, value.user_agent().find(&key));
}

#[test]
fn synthetic_consent_is_built_from_its_parts() {
    let created_at = Timestamp { seconds: 1_710_092_941, nanoseconds: 613_437_000 };
    let value = CookieConsentValue::new(
        MathSweCom,
        pref(),
        created_at,
        dummy_geolocation(),
        None,
        dummy_user_agent(),
    );
    let consent = CookieConsent::from_parts(String::from("abc"), value.clone());

    assert_eq!("abc", consent.id());
    assert_eq!(&value, consent.value());
    assert_eq!(created_at, consent.value().created_at());
    assert_eq!(&None, consent.value().anonymous_ip());
    let (key, stored) = consent.to_kv();
    assert_eq!("abc", key);
    assert_eq!(value, stored);
}

#[test]
fn client_request_becomes_a_consent() {
    let request = CookieConsentClientRequest { domain: MathSweCom, pref: pref() };
    let consent = request.to_cookie_consent(dummy_geolocation(), dummy_ip(), dummy_user_agent());

    assert_eq!(MathSweCom, consent.value().domain());
    assert_eq!(pref(), consent.value().pref());
    assert_eq!(&dummy_ip(), consent.value().anonymous_ip());
    assert_eq!(dummy_user_agent(), consent.value().user_agent());
}

#[test]
fn empty_geolocation_knows_only_its_time_zone_and_colo() {
    let geolocation = Geolocation::empty_with(chrono_tz::Tz::Europe__Berlin, String::from("FRA"));

    assert_eq!(chrono_tz::Tz::Europe__Berlin, geolocation.time_zone);
    assert_eq!("FRA", geolocation.colo);
    assert_eq!(None, geolocation.country);
    assert_eq!(None, geolocation.coordinates);
    assert_eq!(None, geolocation.region_code);
    assert_eq!(geolocation, geolocation.clone());
}
