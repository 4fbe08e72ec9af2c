use vstd::prelude::*;

use crate::text::str_eq;

verus! {

/// One incoming or outgoing server descriptor of a configuration document.
#[derive(Debug)]
pub struct Server {
    /// The protocol, as the document names it: `imap`, `pop3`, `smtp`, ...
    pub server_type: String,
    pub hostname: String,
    pub port: Option<u16>,
    /// The socket security mode: `plain`, `SSL` or `STARTTLS`.
    pub socket_type: Option<String>,
    /// The username template, often a placeholder the caller substitutes.
    pub username: Option<String>,
    pub authentication: Option<String>,
}

/// The provider a configuration document describes.
#[derive(Debug)]
pub struct EmailProvider {
    /// The provider's identifier.
    pub id: String,
    /// The domains the provider serves.
    pub domains: Vec<String>,
    pub display_name: Option<String>,
    pub display_short_name: Option<String>,
    pub incoming_servers: Vec<Server>,
    pub outgoing_servers: Vec<Server>,
}

/// A resolved configuration document: the provider surfaced for the
/// requested domain. Immutable once built; owned by the caller.
#[derive(Debug)]
pub struct Config {
    pub email_provider: EmailProvider,
}

impl EmailProvider {
    /// The provider's identifier.
    pub fn id(&self) -> (id: &str)
        ensures
            id@ == self.id@,
    {
        self.id.as_str()
    }

    /// Whether this provider lists `domain` among the domains it serves.
    pub fn serves_domain(&self, domain: &str) -> (b: bool)
        ensures
            b == self.domains.deep_view().contains(domain@),
    {
        let n = self.domains.len();
        let mut i: usize = 0;
        while i < n
            invariant
                i <= n,
                n == self.domains@.len(),
                forall|j: int| 0 <= j < i ==> self.domains.deep_view()[j] != domain@,
            decreases n - i,
        {
            if str_eq(self.domains[i].as_str(), domain) {
                proof {
                    assert(self.domains.deep_view()[i as int] == domain@);
                }
                return true;
            }
            i += 1;
        }
        false
    }
}

impl Config {
    /// The provider this configuration describes.
    pub fn email_provider(&self) -> (p: &EmailProvider)
        ensures
            p == &self.email_provider,
    {
        &self.email_provider
    }
}

/// Whether the provider at `i` lists `domain`.
pub open spec fn spec_serves(providers: Seq<EmailProvider>, i: int, domain: Seq<char>) -> bool {
    providers[i].domains.deep_view().contains(domain)
}

/// The first index of a provider that lists `domain`, or `providers.len()`
/// when none does.
pub open spec fn spec_first_serving(providers: Seq<EmailProvider>, domain: Seq<char>) -> int
    decreases providers.len(),
{
    if providers.len() == 0 {
        0
    } else if spec_serves(providers, 0, domain) {
        0
    } else {
        1 + spec_first_serving(providers.drop_first(), domain)
    }
}

pub proof fn lemma_first_serving(providers: Seq<EmailProvider>, domain: Seq<char>)
    ensures
        0 <= spec_first_serving(providers, domain) <= providers.len(),
        spec_first_serving(providers, domain) < providers.len() ==> spec_serves(
            providers,
            spec_first_serving(providers, domain),
            domain,
        ),
        forall|j: int|
            0 <= j < spec_first_serving(providers, domain) ==> !spec_serves(providers, j, domain),
    decreases providers.len(),
{
    if providers.len() == 0 {
    } else if spec_serves(providers, 0, domain) {
    } else {
        lemma_first_serving(providers.drop_first(), domain);
        assert forall|j: int|
            0 <= j < spec_first_serving(providers, domain) implies !spec_serves(
            providers,
            j,
            domain,
        ) by {
            if j > 0 {
                assert(!spec_serves(providers.drop_first(), j - 1, domain));
                assert(providers[j] == providers.drop_first()[j - 1]);
            }
        }
        if spec_first_serving(providers, domain) < providers.len() {
            let i = spec_first_serving(providers, domain);
            assert(providers[i] == providers.drop_first()[i - 1]);
        }
    }
}

/// Picks the provider a document surfaces for `domain`: the first provider
/// whose domain list names `domain`, or, when none does, the first provider
/// in document order. Only an empty document selects nothing.
#[verifier::loop_isolation(false)]
pub fn select_provider(providers: Vec<EmailProvider>, domain: &str) -> (r: Option<EmailProvider>)
    ensures
        providers@.len() == 0 <==> r is None,
        spec_first_serving(providers@, domain@) < providers@.len() ==> r == Some(
            providers@[spec_first_serving(providers@, domain@)],
        ),
        providers@.len() > 0 && spec_first_serving(providers@, domain@) == providers@.len() ==> r
            == Some(providers@[0]),
{
    let mut providers = providers;
    let ghost orig = providers@;
    let ghost target = spec_first_serving(orig, domain@);
    proof {
        lemma_first_serving(orig, domain@);
    }
    let n = providers.len();
    let mut i: usize = 0;
    while i < n
        invariant
            i <= n,
            n == orig.len(),
            providers@ == orig,
            target == spec_first_serving(orig, domain@),
            0 <= target <= orig.len(),
            target < orig.len() ==> spec_serves(orig, target, domain@),
            forall|j: int| 0 <= j < target ==> !spec_serves(orig, j, domain@),
            forall|j: int| 0 <= j < i ==> !spec_serves(orig, j, domain@),
        decreases n - i,
    {
        let p = &providers[i];
        if p.serves_domain(domain) {
            proof {
                assert(spec_serves(orig, i as int, domain@));
                if target < i {
                    assert(!spec_serves(orig, target, domain@));
                }
                if i < target {
                    assert(!spec_serves(orig, i as int, domain@));
                }
                assert(target == i);
            }
            return Some(providers.remove(i));
        }
        i += 1;
    }
    proof {
        if target < orig.len() {
            assert(!spec_serves(orig, target, domain@));
        }
        assert(target == orig.len());
    }
    if providers.len() > 0 {
        Some(providers.remove(0))
    } else {
        None
    }
}

} // verus!
