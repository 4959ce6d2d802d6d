use cookie_consent::Domain::{MathSoftware, MathSoftwareEngineer, MathSweCom};
use cookie_consent::{Domain, Origin};

fn assert_parses_to(raw: &str, domain: Domain, subdomain: Option<&str>) {
    let origin = Origin::from_str(raw).expect(raw);
    assert_eq!(subdomain.map(String::from), origin.subdomain(), "{}", raw);
    assert_eq!(domain, origin.domain(), "{}", raw);
}

#[test]
fn accepts_valid_origins() {
    let valid_origin_cases = vec![
        ("https://mathswe.com", MathSweCom, None),
        ("https://staging.mathswe.com", MathSweCom, Some("staging")),
        ("https://nested.subdomain.mathswe.com", MathSweCom, Some("nested.subdomain")),
        ("https://math.software", MathSoftware, None),
        ("https://staging.math.software", MathSoftware, Some("staging")),
        ("https://nested.subdomain.math.software", MathSoftware, Some("nested.subdomain")),
        ("https://mathsoftware.engineer", MathSoftwareEngineer, None),
        ("https://staging.mathsoftware.engineer", MathSoftwareEngineer, Some("staging")),
        (
            "https://nested.subdomain.mathsoftware.engineer",
            MathSoftwareEngineer,
            Some("nested.subdomain"),
        ),
    ];

    valid_origin_cases
        .iter()
        .for_each(|(raw_origin, domain, subdomain)| assert_parses_to(raw_origin, *domain, *subdomain))
}

#[test]
fn rejects_invalid_origins() {
    let invalid_origins = vec![
        "http://mathswe.com",
        "http://math.software",
        "http://mathsoftware.engineer",
        "http://example.com",
        "https://example.com",
        "https://abc.com",
        "https://abc.com",
        "http://abc.software",
        "http://abc.software",
        "https://abc.engineer",
        "https://abc.engineering",
    ];

    invalid_origins
        .iter()
        .for_each(|origin| assert_eq!(None, Origin::from_str(origin)))
}

#[test]
fn converts_origin_to_str() {
    let origin_cases = vec![
        "https://mathswe.com",
        "https://staging.mathswe.com",
        "https://nested.subdomain.mathswe.com",
        "https://math.software",
        "https://staging.math.software",
        "https://nested.subdomain.math.software",
        "https://mathsoftware.engineer",
        "https://staging.mathsoftware.engineer",
        "https://nested.subdomain.mathsoftware.engineer",
    ];

    origin_cases
        .iter()
        .for_each(|expected| assert_eq!(*expected, Origin::from_str(expected).unwrap().to_string()))
}

#[test]
fn rejects_names_that_do_not_end_at_a_label_boundary() {
    for raw in [
        "https://evilmathswe.com",
        "https://notmathswe.com",
        "https://mathswe.com.evil.com",
        "https://xmath.software",
        "https://evil-mathsoftware.engineer",
    ] {
        assert_eq!(None, Origin::from_str(raw), "{}", raw);
    }
}

#[test]
fn rejects_empty_subdomain_port_and_missing_scheme() {
    for raw in [
        "https://.mathswe.com",
        "https://mathswe.com:443",
        "https://staging.mathswe.com:8080",
        "mathswe.com",
        "https://",
        "",
        "HTTPS://mathswe.com",
        "https://mathswe.com/",
    ] {
        assert_eq!(None, Origin::from_str(raw), "{}", raw);
    }
}

#[test]
fn round_trips_every_domain_with_subdomains() {
    for domain in Domain::all() {
        let name = domain.to_domain_name();
        for sub in ["", "a", "staging", "x.y.z", "deep.nested.sub"] {
            let raw = if sub.is_empty() {
                format!("https://{}", name)
            } else {
                format!("https://{}.{}", sub, name)
            };
            let origin = Origin::from_str(&raw).expect(&raw);
            assert_eq!(domain, origin.clone().domain());
            assert_eq!(raw, origin.to_string());
        }
    }
}

#[test]
fn names_each_domain() {
    assert_eq!("mathswe.com", MathSweCom.to_domain_name());
    assert_eq!("math.software", MathSoftware.to_domain_name());
    assert_eq!("mathsoftware.engineer", MathSoftwareEngineer.to_domain_name());
    assert_eq!(vec![MathSweCom, MathSoftware, MathSoftwareEngineer], Domain::all());
}
