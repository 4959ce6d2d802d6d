use vstd::prelude::*;

use crate::consent::{all_domains, Domain};

verus! {

/// The only scheme an accepted origin may carry.
pub open spec fn scheme() -> Seq<char> {
    "https://"@
}

/// How `host` stands to the domain name `name`: `Some(None)` when it is the
/// bare name, `Some(Some(sub))` when it is `sub + "." + name` with a non-empty
/// `sub`, and `None` when the name does not end `host` at a label boundary.
pub open spec fn split_host(host: Seq<char>, name: Seq<char>) -> Option<Option<Seq<char>>> {
    if host == name {
        Some(None)
    } else if host.len() > name.len() + 1 && (seq!['.'] + name).is_suffix_of(host) {
        Some(Some(host.take(host.len() - name.len() - 1)))
    } else {
        None
    }
}

/// The first domain, from position `i` of `all_domains()` on, that `host`
/// belongs to, with the subdomain part of `host`.
pub open spec fn find_domain_from(host: Seq<char>, i: nat) -> Option<(Domain, Option<Seq<char>>)>
    decreases all_domains().len() - i,
{
    if i < all_domains().len() {
        match split_host(host, all_domains()[i as int].name()) {
            Some(sub) => Some((all_domains()[i as int], sub)),
            None => find_domain_from(host, i + 1),
        }
    } else {
        None
    }
}

/// The origin that the text `raw` denotes, if it is an accepted one.
pub open spec fn parse_origin(raw: Seq<char>) -> Option<(Domain, Option<Seq<char>>)> {
    if scheme().is_prefix_of(raw) {
        find_domain_from(raw.skip(scheme().len() as int), 0)
    } else {
        None
    }
}

/// The hostname of a domain with an optional subdomain.
pub open spec fn render_host(domain: Domain, subdomain: Option<Seq<char>>) -> Seq<char> {
    match subdomain {
        Some(sub) => sub + "."@ + domain.name(),
        None => domain.name(),
    }
}

/// The text of an origin.
pub open spec fn render_origin(domain: Domain, subdomain: Option<Seq<char>>) -> Seq<char> {
    scheme() + render_host(domain, subdomain)
}

pub open spec fn opt_string_view(o: Option<String>) -> Option<Seq<char>> {
    match o {
        Some(s) => Some(s@),
        None => None,
    }
}

/// An accepted client origin: the scheme is HTTPS, the hostname is one of the
/// `Domain` names or a subdomain of one, and there is no explicit port.
/// For example `https://mathswe.com` and `https://staging.mathswe.com`.
#[derive(PartialEq, Debug)]
pub struct Origin {
    domain: Domain,
    subdomain: Option<String>,
}

impl View for Origin {
    type V = (Domain, Option<Seq<char>>);

    closed spec fn view(&self) -> (Domain, Option<Seq<char>>) {
        (self.domain, opt_string_view(self.subdomain))
    }
}

pub open spec fn opt_origin_view(o: Option<Origin>) -> Option<(Domain, Option<Seq<char>>)> {
    match o {
        Some(origin) => Some(origin@),
        None => None,
    }
}

impl Origin {
    /// A subdomain, when there is one, is never empty.
    #[verifier::type_invariant]
    spec fn wf(self) -> bool {
        self.subdomain matches Some(sub) ==> sub@.len() > 0
    }

    pub fn from_str(origin: &str) -> (r: Option<Self>)
        ensures
            opt_origin_view(r) == parse_origin(origin@),
    {
        let prefix = "https://";
        let len = origin.unicode_len();
        let prefix_len = prefix.unicode_len();
        if len < prefix_len || !chars_match(origin, 0, prefix) {
            return None;
        }
        let host = origin.substring_char(prefix_len, len);
        assert(host@ == origin@.skip(scheme().len() as int));
        let domains = Domain::all();
        let mut i: usize = 0;
        while i < domains.len()
            invariant
                i <= domains@.len(),
                domains@ == all_domains(),
                host@ == origin@.skip(scheme().len() as int),
                scheme().is_prefix_of(origin@),
                find_domain_from(host@, 0) == find_domain_from(host@, i as nat),
            decreases domains.len() - i,
        {
            let domain = domains[i];
            let name = domain.to_domain_name();
            if let Some(subdomain) = split_hostname(host, name.as_str()) {
                return Some(Origin { domain, subdomain });
            }
            i = i + 1;
        }
        None
    }

    pub fn domain(self) -> (r: Domain)
        ensures
            r == self@.0,
    {
        self.domain
    }

    pub fn subdomain(&self) -> (r: Option<String>)
        ensures
            opt_string_view(r) == self@.1,
    {
        match &self.subdomain {
            Some(sub) => Some(sub.clone()),
            None => None,
        }
    }

    pub fn to_string(self) -> (r: String)
        ensures
            r@ == render_origin(self@.0, self@.1),
    {
        let name = self.domain.to_domain_name();
        let mut out = String::from_str("https://");
        match &self.subdomain {
            Some(sub) => {
                out.append(sub.as_str());
                out.append(".");
            },
            None => {},
        }
        out.append(name.as_str());
        proof {
            if let Some(sub) = self.subdomain {
                assert(out@ =~= scheme() + (sub@ + "."@ + name@));
            }
        }
        out
    }
}

impl Clone for Origin {
    fn clone(&self) -> (r: Self)
        ensures
            r == *self,
    {
        proof {
            use_type_invariant(self);
        }
        Origin { domain: self.domain, subdomain: self.subdomain.clone() }
    }
}

/// Whether the characters of `s` from `start` on are those of `t`.
pub(crate) fn chars_match(s: &str, start: usize, t: &str) -> (r: bool)
    requires
        start + t@.len() <= s@.len(),
    ensures
        r == (s@.subrange(start as int, start + t@.len()) == t@),
{
    let s_len = s.unicode_len();
    let n = t.unicode_len();
    let mut k: usize = 0;
    while k < n
        invariant
            s_len == s@.len(),
            n == t@.len(),
            k <= n,
            start + n <= s@.len(),
            forall|j: int| 0 <= j < k ==> s@[start + j] == t@[j],
        decreases n - k,
    {
        if s.get_char(start + k) != t.get_char(k) {
            assert(s@.subrange(start as int, start + t@.len())[k as int] != t@[k as int]);
            return false;
        }
        k = k + 1;
    }
    assert(s@.subrange(start as int, start + t@.len()) =~= t@);
    true
}

/// `split_host` on strings.
fn split_hostname(host: &str, name: &str) -> (r: Option<Option<String>>)
    ensures
        match r {
            Some(sub) => split_host(host@, name@) == Some(opt_string_view(sub)),
            None => split_host(host@, name@) is None,
        },
{
    let host_len = host.unicode_len();
    let name_len = name.unicode_len();
    if host_len == name_len {
        if chars_match(host, 0, name) {
            assert(host@ =~= host@.subrange(0, name@.len() as int));
            Some(None)
        } else {
            assert(host@ != name@ ==> host@ =~= host@.subrange(0, name@.len() as int));
            None
        }
    } else if host_len > name_len && host_len - name_len > 1 {
        let dot = host_len - name_len - 1;
        let ghost suffix = seq!['.'] + name@;
        if host.get_char(dot) == '.' && chars_match(host, dot + 1, name) {
            assert(suffix =~= host@.subrange(dot as int, host@.len() as int));
            let sub = host.substring_char(0, dot);
            Some(Some(String::from_str(sub)))
        } else {
            assert(suffix.is_suffix_of(host@) ==> {
                &&& host@[dot as int] == suffix[0]
                &&& host@.subrange(dot + 1, host@.len() as int) =~= suffix.skip(1)
            });
            assert(suffix.skip(1) =~= name@);
            None
        }
    } else {
        None
    }
}

/// Distinct domains have names that end in distinct characters, so a
/// hostname can end at a label boundary with the name of one domain only.
proof fn lemma_names_end_apart(a: Domain, b: Domain)
    ensures
        a.name().len() > 0,
        a != b ==> a.name().last() != b.name().last(),
{
    reveal_strlit("mathswe.com");
    reveal_strlit("math.software");
    reveal_strlit("mathsoftware.engineer");
}

/// A hostname built on `domain` is not split by the name of another domain.
proof fn lemma_split_other_domain(domain: Domain, subdomain: Option<Seq<char>>, other: Domain)
    requires
        other != domain,
    ensures
        split_host(render_host(domain, subdomain), other.name()) is None,
{
    let host = render_host(domain, subdomain);
    lemma_names_end_apart(domain, other);
    lemma_names_end_apart(other, domain);
    assert(host.last() == domain.name().last());
    let suffix = seq!['.'] + other.name();
    if suffix.is_suffix_of(host) {
        assert(host.last() == suffix.last());
    }
}

/// A hostname built on `domain` is split by its name into its subdomain.
proof fn lemma_split_own_domain(domain: Domain, subdomain: Option<Seq<char>>)
    requires
        subdomain matches Some(sub) ==> sub.len() > 0,
    ensures
        split_host(render_host(domain, subdomain), domain.name()) == Some(subdomain),
{
    if let Some(sub) = subdomain {
        let host = render_host(domain, subdomain);
        let suffix = seq!['.'] + domain.name();
        reveal_strlit(".");
        assert("."@ =~= seq!['.']);
        assert(host.len() > domain.name().len());
        assert(suffix =~= host.subrange(sub.len() as int, host.len() as int));
        assert(host.take(sub.len() as int) =~= sub);
    }
}

/// Parsing the text of any well-formed origin gives that origin back: for every
/// approved domain `d` and non-empty subdomain `s`, `https://` + `s` + `.` + `d`
/// parses to `d` with subdomain `s`, and `https://` + `d` to `d` alone.
pub proof fn lemma_parse_render(domain: Domain, subdomain: Option<Seq<char>>)
    requires
        subdomain matches Some(sub) ==> sub.len() > 0,
    ensures
        parse_origin(render_origin(domain, subdomain)) == Some((domain, subdomain)),
{
    let raw = render_origin(domain, subdomain);
    let host = render_host(domain, subdomain);
    assert(raw.subrange(0, scheme().len() as int) =~= scheme());
    assert(raw.skip(scheme().len() as int) =~= host);
    lemma_split_own_domain(domain, subdomain);
    let all = all_domains();
    if domain != all[0] {
        lemma_split_other_domain(domain, subdomain, all[0]);
        if domain != all[1] {
            lemma_split_other_domain(domain, subdomain, all[1]);
            assert(find_domain_from(host, 2) == Some((domain, subdomain)));
        }
        assert(find_domain_from(host, 1) == Some((domain, subdomain)));
    }
}

/// What `find_domain_from` returns is a split of `host` by that domain's name.
proof fn lemma_find_domain_sound(host: Seq<char>, i: nat)
    ensures
        find_domain_from(host, i) matches Some((d, sub)) ==> split_host(host, d.name()) == Some(sub),
    decreases all_domains().len() - i,
{
    if i < all_domains().len() {
        lemma_find_domain_sound(host, i + 1);
    }
}

/// `find_domain_from` finds a domain whenever one from position `i` on splits `host`.
proof fn lemma_find_domain_complete(host: Seq<char>, i: nat, j: int)
    requires
        i <= j < all_domains().len(),
        split_host(host, all_domains()[j].name()) is Some,
    ensures
        find_domain_from(host, i) is Some,
    decreases j - i,
{
    if i < j {
        lemma_find_domain_complete(host, i + 1, j);
    }
}

/// Rendering a parsed origin reproduces the text it was parsed from, and the
/// subdomain found, if any, is not empty.
pub proof fn lemma_render_parse(raw: Seq<char>)
    ensures
        parse_origin(raw) matches Some((d, sub)) ==> {
            &&& render_origin(d, sub) == raw
            &&& sub matches Some(s) ==> s.len() > 0
        },
{
    if let Some((d, sub)) = parse_origin(raw) {
        let host = raw.skip(scheme().len() as int);
        lemma_find_domain_sound(host, 0);
        if let Some(s) = sub {
            reveal_strlit(".");
            assert("."@ =~= seq!['.']);
            let k = host.len() - d.name().len() - 1;
            assert(host.subrange(k, host.len() as int) =~= seq!['.'] + d.name());
            assert(host =~= host.take(k) + host.subrange(k, host.len() as int));
            assert(host =~= s + "."@ + d.name());
        }
        assert(raw =~= scheme() + host);
    }
}

/// An origin is accepted exactly when it starts with `https://` and its
/// hostname is an approved domain name or ends with `.` and that name after a
/// non-empty prefix. So `http://` origins, hostnames such as `evilmathswe.com`
/// or `mathswe.com.evil.com`, and unknown domains are all rejected.
pub proof fn lemma_accepted_origins(raw: Seq<char>)
    ensures
        parse_origin(raw) is Some <==> {
            &&& scheme().is_prefix_of(raw)
            &&& exists|d: Domain| #[trigger] split_host(raw.skip(scheme().len() as int), d.name()) is Some
        },
{
    let host = raw.skip(scheme().len() as int);
    lemma_find_domain_sound(host, 0);
    if scheme().is_prefix_of(raw) {
        if exists|d: Domain| #[trigger] split_host(host, d.name()) is Some {
            let d = choose|d: Domain| #[trigger] split_host(host, d.name()) is Some;
            let j: int = match d {
                Domain::MathSweCom => 0,
                Domain::MathSoftware => 1,
                Domain::MathSoftwareEngineer => 2,
            };
            assert(all_domains()[j] == d);
            lemma_find_domain_complete(host, 0, j);
        }
        if let Some((d, sub)) = parse_origin(raw) {
            assert(split_host(host, d.name()) is Some);
        }
    }
}

} // verus!
