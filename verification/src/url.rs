//! The URL of an appliance, as the user may write it.

use vstd::prelude::*;

use crate::error::joined;
use crate::text::{
    contains, law_occurs_between, law_trailing_run_is_taken_off, law_trimmed_off_the_end, occurs,
    occurs_at, trim_end_matches, without_trailing,
};

verus! {

/// A URL without trailing slashes, and with `https://` where it names no scheme.
pub open spec fn normalized_url(url: Seq<char>) -> Seq<char> {
    let bare = without_trailing(url, '/');
    if occurs(bare, "://"@) {
        bare
    } else {
        "https://"@ + bare
    }
}

/// A URL without trailing slashes, and with `https://` where it names no scheme.
pub fn normalize_url(url: &str) -> (r: String)
    ensures
        r@ == normalized_url(url@),
{
    let url = trim_end_matches(url, '/');
    if contains(url.as_str(), "://") {
        url
    } else {
        joined("https://", url.as_str())
    }
}

/// A normalized URL names a scheme.
pub proof fn law_normalized_names_scheme(url: Seq<char>)
    ensures
        occurs(normalized_url(url), "://"@),
{
    let bare = without_trailing(url, '/');
    if !occurs(bare, "://"@) {
        lemma_https_names_scheme(bare);
    }
}

/// A URL that names a scheme keeps it: nothing is put before it.
pub proof fn law_normalized_keeps_scheme(url: Seq<char>)
    requires
        occurs(without_trailing(url, '/'), "://"@),
    ensures
        normalized_url(url).is_prefix_of(url),
{
    law_trimmed_off_the_end(url, '/');
}

/// A normalized URL does not end in a slash, where the URL is more than slashes.
pub proof fn law_normalized_has_no_trailing_slash(url: Seq<char>)
    requires
        without_trailing(url, '/').len() > 0,
    ensures
        normalized_url(url).len() > 0,
        normalized_url(url).last() != '/',
{
    law_trimmed_off_the_end(url, '/');
}

/// Normalizing a normalized URL changes nothing, where the URL is more than
/// slashes.
pub proof fn law_normalize_is_idempotent(url: Seq<char>)
    requires
        without_trailing(url, '/').len() > 0,
    ensures
        normalized_url(normalized_url(url)) == normalized_url(url),
{
    law_normalized_names_scheme(url);
    law_normalized_has_no_trailing_slash(url);
}

proof fn lemma_https_names_scheme(rest: Seq<char>)
    ensures
        occurs("https://"@ + rest, "://"@),
{
    reveal_strlit("https://");
    reveal_strlit("://");
    assert(("https://"@ + rest).subrange(5, 8) =~= "://"@);
    assert(occurs_at("https://"@ + rest, "://"@, 5));
}

/// However many slashes are put behind an address, it comes to the same URL: the
/// address itself where it names a scheme, and the address behind `https://` where
/// it names none.
pub proof fn law_slashes_behind_an_address_do_not_matter(address: Seq<char>, slashes: nat)
    requires
        address.len() > 0 ==> address.last() != '/',
    ensures
        ({
            let url = address + Seq::new(slashes, |i: int| '/');
            let scheme = exists|before: Seq<char>, after: Seq<char>|
                address == #[trigger] (before + "://"@ + after);
            &&& scheme ==> normalized_url(url) == address
            &&& !scheme ==> normalized_url(url) == "https://"@ + address
        }),
{
    law_trailing_run_is_taken_off(address, '/', slashes);
    law_occurs_between(address, "://"@);
}

} // verus!
