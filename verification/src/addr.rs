use vstd::prelude::*;
use vstd::string::StrSliceExecFns;
use vstd::string::StringExecFns;

use crate::error::Error;
use crate::error::ErrorKind;

verus! {

/// The index of the first `@` in `s`, or `s.len()` when there is none.
pub open spec fn spec_first_at(s: Seq<char>) -> int
    decreases s.len(),
{
    if s.len() == 0 {
        0
    } else if s[0] == '@' {
        0
    } else {
        1 + spec_first_at(s.drop_first())
    }
}

/// A well-formed address: a non-empty local part, then a single `@`, then a
/// non-empty domain that holds no further `@`.
pub open spec fn spec_valid_addr(s: Seq<char>) -> bool {
    let i = spec_first_at(s);
    0 < i && i + 1 < s.len() && (forall|j: int| i < j < s.len() ==> s[j] != '@')
}

/// The part of a well-formed address after its `@`.
pub open spec fn spec_domain_of(s: Seq<char>) -> Seq<char> {
    s.subrange(spec_first_at(s) + 1, s.len() as int)
}

/// The part of a well-formed address before its `@`.
pub open spec fn spec_local_of(s: Seq<char>) -> Seq<char> {
    s.subrange(0, spec_first_at(s))
}

pub proof fn lemma_first_at(s: Seq<char>)
    ensures
        0 <= spec_first_at(s) <= s.len(),
        spec_first_at(s) < s.len() ==> s[spec_first_at(s)] == '@',
        forall|j: int| 0 <= j < spec_first_at(s) ==> s[j] != '@',
    decreases s.len(),
{
    if s.len() == 0 {
    } else if s[0] == '@' {
    } else {
        lemma_first_at(s.drop_first());
        assert forall|j: int| 0 <= j < spec_first_at(s) implies s[j] != '@' by {
            if j > 0 {
                assert(s[j] == s.drop_first()[j - 1]);
            }
        }
    }
}

/// The first `@` is the only index with `@` before it and an `@` at it.
pub proof fn lemma_first_at_is(s: Seq<char>, i: int)
    requires
        0 <= i < s.len(),
        s[i] == '@',
        forall|j: int| 0 <= j < i ==> s[j] != '@',
    ensures
        spec_first_at(s) == i,
{
    lemma_first_at(s);
    if spec_first_at(s) < i {
        assert(s[spec_first_at(s)] != '@');
    }
}

/// Finds the first `@` of `addr`, or its length when there is none.
fn first_at_index(addr: &str) -> (i: usize)
    ensures
        i == spec_first_at(addr@),
        i <= addr@.len(),
{
    let n = addr.unicode_len();
    let mut i: usize = 0;
    while i < n
        invariant
            i <= n,
            n == addr@.len(),
            forall|j: int| 0 <= j < i ==> addr@[j] != '@',
        decreases n - i,
    {
        if addr.get_char(i) == '@' {
            proof {
                lemma_first_at_is(addr@, i as int);
            }
            return i;
        }
        i += 1;
    }
    proof {
        lemma_first_at(addr@);
        if spec_first_at(addr@) < n {
            assert(addr@[spec_first_at(addr@)] != '@');
        }
    }
    n
}

/// Whether `addr` is a well-formed address: a non-empty local part, one `@`,
/// and a non-empty domain. An address that fails this gate never reaches
/// domain extraction.
pub fn validate_email(addr: &str) -> (b: bool)
    ensures
        b == spec_valid_addr(addr@),
{
    let n = addr.unicode_len();
    let i = first_at_index(addr);
    if i == 0 || i >= n || i + 1 == n {
        return false;
    }
    let mut k: usize = i + 1;
    while k < n
        invariant
            i + 1 <= k <= n,
            n == addr@.len(),
            i == spec_first_at(addr@),
            forall|j: int| i < j < k ==> addr@[j] != '@',
        decreases n - k,
    {
        if addr.get_char(k) == '@' {
            return false;
        }
        k += 1;
    }
    true
}

/// Extracts the domain of an address: the text after the single `@`.
/// Returns the domain for every well-formed address, and a `BadInput`
/// error for every other input.
pub fn parse_domain(addr: &str) -> (r: Result<String, Error>)
    ensures
        spec_valid_addr(addr@) ==> (r matches Ok(d) && d@ == spec_domain_of(addr@)),
        !spec_valid_addr(addr@) ==> (r matches Err(e) && e.kind is BadInput && e.message@
            == "Given email address is invalid"@),
{
    if !validate_email(addr) {
        return Err(
            Error::new(ErrorKind::BadInput, String::from_str("Given email address is invalid")),
        );
    }
    let n = addr.unicode_len();
    let i = first_at_index(addr);
    let domain = addr.substring_char(i + 1, n);
    Ok(String::from_str(domain))
}

/// Law: for a local part and a domain that are free of `@` and non-empty,
/// the address written `local@domain` is well-formed, and domain extraction
/// gives back exactly the domain.
pub proof fn lemma_domain_extraction_exact(local: Seq<char>, domain: Seq<char>)
    requires
        local.len() > 0,
        domain.len() > 0,
        forall|j: int| 0 <= j < local.len() ==> local[j] != '@',
        forall|j: int| 0 <= j < domain.len() ==> domain[j] != '@',
    ensures
        spec_valid_addr(local + seq!['@'] + domain),
        spec_domain_of(local + seq!['@'] + domain) == domain,
        spec_local_of(local + seq!['@'] + domain) == local,
{
    let s = local + seq!['@'] + domain;
    assert(s[local.len() as int] == '@');
    assert forall|j: int| 0 <= j < local.len() implies s[j] != '@' by {
        assert(s[j] == local[j]);
    }
    lemma_first_at_is(s, local.len() as int);
    assert forall|j: int| local.len() < j < s.len() implies s[j] != '@' by {
        assert(s[j] == domain[j - local.len() - 1]);
    }
    assert(spec_domain_of(s) =~= domain);
    assert(spec_local_of(s) =~= local);
}

} // verus!
