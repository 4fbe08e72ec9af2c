use vstd::prelude::*;
use vstd::string::StrSliceExecFns;
use vstd::string::StringExecFns;
use vstd::utf8::decode_utf8;
use vstd::utf8::valid_utf8;

use crate::text::char_is_space;
use crate::text::is_prefix_of;
use crate::text::is_space_char;
use crate::text::str_starts_with;
use crate::text::utf8_str;

verus! {

/// Whether a text parses as a URL. Deterministic: the parser's verdict is a
/// function of the text alone.
pub uninterp spec fn url_parses(s: Seq<char>) -> bool;

/// Relies on surf's re-export of the url crate's parser, `Url::parse`: it
/// returns `Ok` or `Err` by the text alone, and never panics.
#[verifier::external_body]
fn url_parseable(s: &str) -> (b: bool)
    ensures
        b == url_parses(s@),
{
    surf::Url::parse(s).is_ok()
}

/// A TXT record advertises a configuration source when its full text matches
/// the fixed pattern `mailconf=<URL>`, the URL's characters are free of
/// whitespace, the URL parses, and — because the discovery channel is
/// unauthenticated — its scheme is `https` (with the text already fixed to
/// begin `https://`, a URL that parses has exactly that scheme). A record
/// that is not valid UTF-8, does not match in its entirety, holds a URL that
/// does not parse, or names any other scheme is passed over in silence.
pub open spec fn spec_record_accepted(record: Seq<u8>) -> bool {
    &&& valid_utf8(record)
    &&& {
        let s = decode_utf8(record);
        let p = "mailconf=https://"@;
        &&& is_prefix_of(p, s)
        &&& s.len() > p.len()
        &&& forall|j: int| p.len() <= j < s.len() ==> !is_space_char(s[j])
    }
    &&& url_parses(spec_record_url(record))
}

/// The URL a matching record advertises: everything after `mailconf=`.
pub open spec fn spec_record_url(record: Seq<u8>) -> Seq<char> {
    let s = decode_utf8(record);
    s.subrange("mailconf="@.len() as int, s.len() as int)
}

/// The URLs advertised by the accepted records, in record order.
pub open spec fn spec_discovered(records: Seq<Seq<u8>>) -> Seq<Seq<char>>
    decreases records.len(),
{
    if records.len() == 0 {
        Seq::empty()
    } else {
        spec_discovered(records.drop_last()) + (if spec_record_accepted(records.last()) {
            seq![spec_record_url(records.last())]
        } else {
            Seq::empty()
        })
    }
}

/// The URL one TXT record advertises, when it is accepted.
pub fn record_url(record: &Vec<u8>) -> (r: Option<String>)
    ensures
        r is Some <==> spec_record_accepted(record@),
        r matches Some(u) ==> u@ == spec_record_url(record@),
{
    proof {
        reveal_strlit("mailconf=https://");
        reveal_strlit("mailconf=");
    }
    let s = match utf8_str(record.as_slice()) {
        Some(s) => s,
        None => {
            return None;
        },
    };
    if !str_starts_with(s, "mailconf=https://") {
        return None;
    }
    let n = s.unicode_len();
    let plen = "mailconf=https://".unicode_len();
    if n <= plen {
        return None;
    }
    let mut i = plen;
    while i < n
        invariant
            plen <= i <= n,
            n == s@.len(),
            plen == "mailconf=https://"@.len(),
            valid_utf8(record@),
            s@ == decode_utf8(record@),
            forall|j: int| plen <= j < i ==> !is_space_char(s@[j]),
        decreases n - i,
    {
        if char_is_space(s.get_char(i)) {
            proof {
                if spec_record_accepted(record@) {
                    assert(!is_space_char(decode_utf8(record@)[i as int]));
                    assert(decode_utf8(record@)[i as int] == s@[i as int]);
                }
            }
            return None;
        }
        i += 1;
    }
    let caplen = "mailconf=".unicode_len();
    let url = s.substring_char(caplen, n);
    if !url_parseable(url) {
        return None;
    }
    Some(String::from_str(url))
}

/// Filters raw TXT records down to the URLs they advertise, in record order:
/// exactly the records that match `mailconf=<https-URL>` in their entirety,
/// with a URL that parses, contribute, each its URL.
pub fn discovered_urls(records: &Vec<Vec<u8>>) -> (urls: Vec<String>)
    ensures
        urls.deep_view() == spec_discovered(records.deep_view()),
{
    let n = records.len();
    let mut urls: Vec<String> = Vec::new();
    let mut i: usize = 0;
    while i < n
        invariant
            i <= n,
            n == records@.len(),
            urls.deep_view() == spec_discovered(records.deep_view().take(i as int)),
        decreases n - i,
    {
        let ghost pre = records.deep_view().take(i as int);
        let ghost cur = records.deep_view().take(i as int + 1);
        proof {
            assert(cur.drop_last() =~= pre);
            assert(cur.last() == records.deep_view()[i as int]);
            assert(records.deep_view()[i as int] =~= records@[i as int]@);
        }
        match record_url(&records[i]) {
            Some(u) => {
                urls.push(u);
            },
            None => {},
        }
        proof {
            assert(urls.deep_view() =~= spec_discovered(cur));
        }
        i += 1;
    }
    proof {
        assert(records.deep_view().take(n as int) =~= records.deep_view());
    }
    urls
}

} // verus!
