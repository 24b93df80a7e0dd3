//! URLs and the name/value pairs of their query strings.

use url::{ParseError, Url};
use vstd::prelude::*;
use vstd::utf8::encode_utf8;

verus! {

/// A parsed URL of the `url` crate. Nothing inside it is visible here: what the
/// library knows of a URL it knows through [`url_text`], [`url_query`] and
/// [`url_without_query`].
#[verifier::external_type_specification]
#[verifier::external_body]
pub struct ExUrl(Url);

/// The reason for which the `url` crate rejected a text as a URL.
#[verifier::external_type_specification]
#[verifier::external_body]
pub struct ExParseError(ParseError);

/// The text of a URL: what `Url::as_str` hands out.
pub uninterp spec fn url_text(url: &Url) -> Seq<char>;

/// The name/value pairs of a URL's query string, decoded and in the order in which
/// they stand there: what `Url::query_pairs` yields. Empty for a URL without a query.
pub uninterp spec fn url_query(url: &Url) -> Seq<(Seq<char>, Seq<char>)>;

/// The text of a URL with its query string and the `?` before it left out: the
/// scheme, the authority and the path, followed by the fragment where there is one.
pub uninterp spec fn url_without_query(url: &Url) -> Seq<char>;

/// The query pairs of the URL that `Url::parse` makes of `text`, or `None` where it
/// rejects the text.
pub uninterp spec fn parsed_query(text: Seq<char>) -> Option<Seq<(Seq<char>, Seq<char>)>>;

/// `Url::parse` either rejects a text or returns a URL. Which of the two, and the
/// query pairs of the URL returned, depend on the text alone.
pub assume_specification[ Url::parse ](input: &str) -> (parsed: Result<Url, ParseError>)
    ensures
        match parsed {
            Ok(url) => parsed_query(input@) == Some(url_query(&url)),
            Err(_) => parsed_query(input@) is None,
        },
;

/// `Url::as_str` returns the URL's text.
pub assume_specification<'a>[ Url::as_str ](url: &'a Url) -> (text: &'a str)
    ensures
        text@ == url_text(url),
;

/// The copy that `Url::clone` makes is the same URL.
pub assume_specification[ <Url as Clone>::clone ](url: &Url) -> (copy: Url)
    ensures
        copy == *url,
;

/// `Url::query_pairs`, each pair taken out as two owned strings. It parses the
/// query string into name/value pairs and decodes both parts of each.
#[verifier::external_body]
pub(crate) fn query_pairs(url: &Url) -> (pairs: Vec<(String, String)>)
    ensures
        pairs.deep_view() == url_query(url),
{
    url.query_pairs().into_owned().collect()
}

/// An upper bound for the number of bytes of `url`'s text once a pair with this
/// name and value has been appended: each byte of either may take three in the
/// query string, and `=` and a separator come with them.
pub open spec fn appended_size(url: &Url, name: Seq<char>, value: Seq<char>) -> nat {
    encode_utf8(url_text(url)).len() + 3 * encode_utf8(name).len() + 3 * encode_utf8(
        value,
    ).len() + 2
}

/// `Serializer::append_pair` on the serializer that `Url::query_pairs_mut` gives:
/// it encodes the name and the value and writes them behind the pairs that the query
/// string already holds, so that they read back as the last pair. Nothing but the
/// query string changes. The `url` crate indexes a URL's text with 32 bits and stops
/// the program where the text outgrows them, so a longer result is left out.
#[verifier::external_body]
fn append_pair(url: &mut Url, name: &str, value: &str)
    requires
        appended_size(old(url), name@, value@) <= u32::MAX,
    ensures
        url_query(final(url)) == url_query(old(url)).push((name@, value@)),
        url_without_query(final(url)) == url_without_query(old(url)),
{
    url.query_pairs_mut().append_pair(name, value);
}

/// The value of the first pair named `name`, if there is such a pair.
pub open spec fn first_value(pairs: Seq<(Seq<char>, Seq<char>)>, name: Seq<char>) -> Option<
    Seq<char>,
>
    decreases pairs.len(),
{
    if pairs.len() == 0 {
        None
    } else if pairs[0].0 == name {
        Some(pairs[0].1)
    } else {
        first_value(pairs.drop_first(), name)
    }
}

/// A name has a value exactly when some pair carries it, and the value is that of
/// the earliest such pair.
pub proof fn lemma_first_value(pairs: Seq<(Seq<char>, Seq<char>)>, name: Seq<char>)
    ensures
        first_value(pairs, name) is None <==> forall|i: int|
            0 <= i < pairs.len() ==> (#[trigger] pairs[i]).0 != name,
        first_value(pairs, name) matches Some(value) ==> exists|i: int|
            {
                &&& 0 <= i < pairs.len()
                &&& (#[trigger] pairs[i]) == (name, value)
                &&& forall|j: int| 0 <= j < i ==> (#[trigger] pairs[j]).0 != name
            },
    decreases pairs.len(),
{
    if pairs.len() > 0 {
        let rest = pairs.drop_first();
        lemma_first_value(rest, name);
        assert forall|i: int| 0 <= i < rest.len() implies rest[i] == pairs[i + 1] by {}
        if pairs[0].0 != name {
            if first_value(pairs, name) is None {
                assert forall|i: int| 0 <= i < pairs.len() implies (#[trigger] pairs[i]).0
                    != name by {
                    if i > 0 {
                        assert(rest[i - 1].0 != name);
                    }
                }
            } else {
                let value = first_value(pairs, name)->0;
                let i = choose|i: int|
                    {
                        &&& 0 <= i < rest.len()
                        &&& (#[trigger] rest[i]) == (name, value)
                        &&& forall|j: int| 0 <= j < i ==> (#[trigger] rest[j]).0 != name
                    };
                assert forall|j: int| 0 <= j < i + 1 implies (#[trigger] pairs[j]).0 != name by {
                    if j > 0 {
                        assert(rest[j - 1].0 != name);
                    }
                }
            }
        }
    }
}

/// Looks `name` up among `pairs`: the value of the first pair that carries it.
pub fn find_value(pairs: &Vec<(String, String)>, name: &str) -> (value: Option<String>)
    ensures
        value.deep_view() == first_value(pairs.deep_view(), name@),
{
    let key = name.to_owned();
    let ghost all = pairs.deep_view();
    let mut i: usize = 0;
    assert(all.skip(0) == all);
    while i < pairs.len()
        invariant
            i <= pairs.len(),
            key@ == name@,
            all == pairs.deep_view(),
            first_value(all, name@) == first_value(all.skip(i as int), name@),
        decreases pairs.len() - i,
    {
        let ghost here = all.skip(i as int);
        assert(here.drop_first() == all.skip(i + 1));
        if pairs[i].0 == key {
            return Some(pairs[i].1.clone());
        }
        i = i + 1;
    }
    None
}

/// `url` with one more pair at the end of its query string.
pub fn with_query_pair(url: &Url, name: &str, value: &str) -> (extended: Url)
    requires
        appended_size(url, name@, value@) <= u32::MAX,
    ensures
        url_query(&extended) == url_query(url).push((name@, value@)),
        url_without_query(&extended) == url_without_query(url),
{
    let mut extended = url.clone();
    append_pair(&mut extended, name, value);
    extended
}

/// Whether `url` has room for one more pair with this name and value.
pub fn has_room_for_pair(url: &Url, name: &str, value: &str) -> (room: bool)
    ensures
        room == (appended_size(url, name@, value@) <= u32::MAX),
{
    let held: usize = url.as_str().as_bytes().len();
    let named: usize = name.as_bytes().len();
    let valued: usize = value.as_bytes().len();
    if held > 0xFFFF_FFFF || named > 0xFFFF_FFFF || valued > 0xFFFF_FFFF {
        return false;
    }
    held as u64 + 3 * (named as u64) + 3 * (valued as u64) + 2 <= 0xFFFF_FFFF
}

} // verus!
