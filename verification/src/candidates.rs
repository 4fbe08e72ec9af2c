use vstd::prelude::*;
use vstd::string::StringExecFns;

verus! {

/// The three well-known configuration locations for a domain, in their fixed
/// probing order: the provider's own autoconfig host, the well-known path on
/// the domain itself, and the public fallback directory.
pub open spec fn spec_well_known_urls(domain: Seq<char>) -> Seq<Seq<char>> {
    seq![
        "http://autoconfig."@ + domain + "/mail/config-v1.1.xml"@,
        "http://"@ + domain + "/.well-known/autoconfig/mail/config-v1.1.xml"@,
        "https://autoconfig.thunderbird.net/v1.1/"@ + domain,
    ]
}

/// Builds the fixed, ordered list of exactly three well-known configuration
/// locations for `domain`. Pure string construction: no network access.
pub fn build_well_known_urls(domain: &str) -> (urls: Vec<String>)
    ensures
        urls.deep_view() == spec_well_known_urls(domain@),
        urls@.len() == 3,
{
    let mut first = String::from_str("http://autoconfig.");
    first.append(domain);
    first.append("/mail/config-v1.1.xml");

    let mut second = String::from_str("http://");
    second.append(domain);
    second.append("/.well-known/autoconfig/mail/config-v1.1.xml");

    let mut third = String::from_str("https://autoconfig.thunderbird.net/v1.1/");
    third.append(domain);

    let mut urls: Vec<String> = Vec::new();
    urls.push(first);
    urls.push(second);
    urls.push(third);
    proof {
        assert(urls.deep_view() =~= spec_well_known_urls(domain@));
    }
    urls
}

/// `s` with every repeated element removed: each element is kept once, at
/// its first occurrence, and first-occurrence order is preserved.
pub open spec fn spec_dedup(s: Seq<Seq<char>>) -> Seq<Seq<char>>
    decreases s.len(),
{
    if s.len() == 0 {
        Seq::empty()
    } else {
        let rest = spec_dedup(s.drop_last());
        if s.drop_last().contains(s.last()) {
            rest
        } else {
            rest.push(s.last())
        }
    }
}

/// Deduplication keeps exactly the elements of its input.
pub proof fn lemma_dedup_contains(s: Seq<Seq<char>>)
    ensures
        forall|x: Seq<char>| spec_dedup(s).contains(x) <==> s.contains(x),
    decreases s.len(),
{
    if s.len() == 0 {
    } else {
        lemma_dedup_contains(s.drop_last());
        assert forall|x: Seq<char>| s.contains(x) implies spec_dedup(s).contains(x) by {
            if x == s.last() {
                if s.drop_last().contains(x) {
                    assert(spec_dedup(s).contains(x));
                } else {
                    assert(spec_dedup(s).last() == x);
                    assert(spec_dedup(s).contains(x));
                }
            } else {
                let i = choose|i: int| 0 <= i < s.len() && s[i] == x;
                assert(s.drop_last()[i] == x);
                assert(s.drop_last().contains(x));
                let j = choose|j: int| 0 <= j < spec_dedup(s.drop_last()).len() && spec_dedup(
                    s.drop_last(),
                )[j] == x;
                assert(spec_dedup(s)[j] == x);
            }
        }
        assert forall|x: Seq<char>| spec_dedup(s).contains(x) implies s.contains(x) by {
            let i = choose|i: int| 0 <= i < spec_dedup(s).len() && spec_dedup(s)[i] == x;
            if i < spec_dedup(s.drop_last()).len() {
                assert(spec_dedup(s.drop_last())[i] == x);
                assert(spec_dedup(s.drop_last()).contains(x));
                assert(s.drop_last().contains(x));
                let j = choose|j: int| 0 <= j < s.drop_last().len() && s.drop_last()[j] == x;
                assert(s.drop_last()[j] == s[j]);
                assert(s.contains(x));
            } else {
                assert(x == s.last());
                assert(s[s.len() - 1] == x);
            }
        }
    }
}

/// Deduplication leaves no element twice.
pub proof fn lemma_dedup_distinct(s: Seq<Seq<char>>)
    ensures
        forall|i: int, j: int|
            0 <= i < j < spec_dedup(s).len() ==> spec_dedup(s)[i] != spec_dedup(s)[j],
    decreases s.len(),
{
    if s.len() == 0 {
    } else {
        lemma_dedup_distinct(s.drop_last());
        lemma_dedup_contains(s.drop_last());
        if !s.drop_last().contains(s.last()) {
            assert forall|i: int, j: int|
                0 <= i < j < spec_dedup(s).len() implies spec_dedup(s)[i] != spec_dedup(
                s,
            )[j] by {
                if j == spec_dedup(s).len() - 1 {
                    assert(spec_dedup(s)[j] == s.last());
                    assert(spec_dedup(s.drop_last()).contains(spec_dedup(s)[i]));
                }
            }
        }
    }
}

/// Deduplicating a list that grows at the back leaves the front untouched:
/// the deduplication of the front part stands as a prefix.
pub proof fn lemma_dedup_prefix(a: Seq<Seq<char>>, b: Seq<Seq<char>>)
    ensures
        spec_dedup(a + b).len() >= spec_dedup(a).len(),
        spec_dedup(a + b).subrange(0, spec_dedup(a).len() as int) == spec_dedup(a),
    decreases b.len(),
{
    if b.len() == 0 {
        assert(a + b =~= a);
    } else {
        lemma_dedup_prefix(a, b.drop_last());
        assert((a + b).drop_last() =~= a + b.drop_last());
        let n = spec_dedup(a).len() as int;
        let d = spec_dedup(a + b.drop_last());
        if !(a + b.drop_last()).contains((a + b).last()) {
            assert(spec_dedup(a + b) == d.push((a + b).last()));
            assert(spec_dedup(a + b).subrange(0, n) =~= d.subrange(0, n));
        }
    }
}

/// Law: when a discovered URL equals a well-known one, the deduplicated
/// candidate list holds it exactly once, inside the well-known block that
/// stands unchanged at the front.
pub proof fn lemma_candidate_dedup_keeps_first(
    wk: Seq<Seq<char>>,
    disc: Seq<Seq<char>>,
    u: Seq<char>,
)
    requires
        wk.contains(u),
        disc.contains(u),
    ensures
        spec_dedup(wk + disc).contains(u),
        spec_dedup(wk).contains(u),
        spec_dedup(wk + disc).subrange(0, spec_dedup(wk).len() as int) == spec_dedup(wk),
        forall|i: int, j: int|
            0 <= i < j < spec_dedup(wk + disc).len() ==> spec_dedup(wk + disc)[i] != spec_dedup(
                wk + disc,
            )[j],
{
    lemma_dedup_contains(wk + disc);
    assert((wk + disc)[choose|i: int| 0 <= i < wk.len() && wk[i] == u] == u);
    assert((wk + disc).contains(u));
    lemma_dedup_contains(wk);
    lemma_dedup_distinct(wk + disc);
    lemma_dedup_prefix(wk, disc);
}

/// Whether some element of `v` reads `x`.
fn vec_contains_string(v: &Vec<String>, x: &String) -> (b: bool)
    ensures
        b == v.deep_view().contains(x@),
{
    let n = v.len();
    let mut i: usize = 0;
    while i < n
        invariant
            i <= n,
            n == v@.len(),
            forall|j: int| 0 <= j < i ==> v.deep_view()[j] != x@,
        decreases n - i,
    {
        if v[i] == *x {
            proof {
                assert(v.deep_view()[i as int] == x@);
            }
            return true;
        }
        i += 1;
    }
    false
}

/// Removes repeated URLs, keeping each at its first occurrence and keeping
/// first-occurrence order.
pub fn dedup_urls(urls: Vec<String>) -> (r: Vec<String>)
    ensures
        r.deep_view() == spec_dedup(urls.deep_view()),
{
    let n = urls.len();
    let mut out: Vec<String> = Vec::new();
    let mut i: usize = 0;
    while i < n
        invariant
            i <= n,
            n == urls@.len(),
            out.deep_view() == spec_dedup(urls.deep_view().take(i as int)),
        decreases n - i,
    {
        let ghost pre = urls.deep_view().take(i as int);
        let ghost cur = urls.deep_view().take(i as int + 1);
        proof {
            assert(cur.drop_last() =~= pre);
            assert(cur.last() == urls.deep_view()[i as int]);
            lemma_dedup_contains(pre);
        }
        if !vec_contains_string(&out, &urls[i]) {
            let u = urls[i].clone();
            out.push(u);
            proof {
                assert(out.deep_view() =~= spec_dedup(cur));
            }
        } else {
            proof {
                assert(out.deep_view() =~= spec_dedup(cur));
            }
        }
        i += 1;
    }
    proof {
        assert(urls.deep_view().take(n as int) =~= urls.deep_view());
    }
    out
}

} // verus!
