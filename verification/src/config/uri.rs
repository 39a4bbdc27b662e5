//! Goosefs URIs.

use vstd::prelude::*;
use vstd::string::*;

use crate::config::settings::{is_plain_item, lemma_list_entries};
use crate::text::{
    comma_list, drop_trailing, exactly, find, has_prefix, law_list_splits_at_commas,
    law_trailing_characters_are_dropped, lemma_span_is, list_items, other_than, span, starts_with,
    string_views, trim_end_matches,
};

verus! {

/// Why a text is no Goosefs URI.
#[derive(Debug, PartialEq, Eq)]
pub enum UriParseError {
    /// The text does not begin with `gfs://`.
    InvalidScheme {
        /// The text.
        input: String,
    },
    /// The text names no master address.
    EmptyAuthority {
        /// The text.
        input: String,
    },
}

impl UriParseError {
    /// The text that was parsed.
    pub open spec fn text(self) -> Seq<char> {
        match self {
            UriParseError::InvalidScheme { input } => input@,
            UriParseError::EmptyAuthority { input } => input@,
        }
    }

    /// The error in words.
    pub open spec fn message(self) -> Seq<char> {
        match self {
            UriParseError::InvalidScheme {
                input,
            } => "invalid Goosefs URI (expected 'gfs://<host:port>[,...][/path]'): "@ + quoted(
                input@,
            ),
            UriParseError::EmptyAuthority {
                input,
            } => "Goosefs URI has no master addresses: "@ + quoted(input@),
        }
    }

    /// The error in words.
    pub fn to_string(&self) -> (r: String)
        ensures
            r@ == self.message(),
    {
        match self {
            UriParseError::InvalidScheme { input } => {
                let mut out: String =
                    "invalid Goosefs URI (expected 'gfs://<host:port>[,...][/path]'): ".to_owned();
                let text: String = quote(input.as_str());
                out.append(&text);
                out
            },
            UriParseError::EmptyAuthority { input } => {
                let mut out: String = "Goosefs URI has no master addresses: ".to_owned();
                let text: String = quote(input.as_str());
                out.append(&text);
                out
            },
        }
    }
}

/// What formatting a text with `{:?}` gives: the text in double quotes, with special
/// characters escaped.
pub uninterp spec fn quoted(s: Seq<char>) -> Seq<char>;

/// `format!` with `{:?}` on a `str`. The claim is only that the result depends on the text
/// alone; which characters are escaped is not stated.
#[verifier::external_body]
fn quote(s: &str) -> (r: String)
    ensures
        r@ == quoted(s@),
{
    format!("{:?}", s)
}

/// What stands behind `gfs://`.
pub open spec fn uri_rest(uri: Seq<char>) -> Seq<char> {
    uri.skip("gfs://"@.len() as int)
}

/// The master addresses of a URI: the list before the first `/` behind the scheme.
pub open spec fn uri_addresses(uri: Seq<char>) -> Seq<Seq<char>> {
    list_items(uri_rest(uri).take(span(uri_rest(uri), other_than('/')) as int))
}

/// The root path of a URI: what begins at that `/`, without `/` at its end.
pub open spec fn uri_root(uri: Seq<char>) -> Seq<char> {
    drop_trailing(
        uri_rest(uri).skip(span(uri_rest(uri), other_than('/')) as int),
        exactly('/'),
    )
}

/// Splits `gfs://<addresses>[/<path>]` into the addresses and the root path.
///
/// The addresses are separated by `,`, with white space around them dropped, and
/// empty ones left out. `?` and `#` have no meaning of their own.
pub fn parse_gfs_uri(uri: &str) -> (r: Result<(Vec<String>, String), UriParseError>)
    ensures
        match r {
            Ok((addrs, root)) => {
                &&& has_prefix(uri@, "gfs://"@)
                &&& uri_addresses(uri@).len() > 0
                &&& string_views(addrs@) == uri_addresses(uri@)
                &&& addrs@.len() == uri_addresses(uri@).len()
                &&& root@ == uri_root(uri@)
            },
            Err(UriParseError::InvalidScheme { input }) => {
                &&& !has_prefix(uri@, "gfs://"@)
                &&& input@ == uri@
            },
            Err(UriParseError::EmptyAuthority { input }) => {
                &&& has_prefix(uri@, "gfs://"@)
                &&& uri_addresses(uri@).len() == 0
                &&& input@ == uri@
            },
        },
{
    let scheme: &str = "gfs://";
    if !starts_with(uri, scheme) {
        return Err(UriParseError::InvalidScheme { input: uri.to_owned() });
    }
    let n: usize = uri.unicode_len();
    let rest: &str = uri.substring_char(scheme.unicode_len(), n);
    let m: usize = rest.unicode_len();
    let cut: usize = find(rest, '/');
    proof {
        assert(rest@ =~= uri_rest(uri@));
        assert(rest@.take(cut as int) =~= rest@.subrange(0, cut as int));
        assert(rest@.skip(cut as int) =~= rest@.subrange(cut as int, m as int));
    }
    let addrs: Vec<String> = comma_list(rest.substring_char(0, cut));
    proof {
        assert(string_views(addrs@).len() == addrs@.len());
    }
    if addrs.len() == 0 {
        return Err(UriParseError::EmptyAuthority { input: uri.to_owned() });
    }
    let root: &str = trim_end_matches(rest.substring_char(cut, m), '/');
    Ok((addrs, root.to_owned()))
}

/// A URI is taken apart as it was put together: from `gfs://`, an authority without `/` and a
/// path that begins with `/`, or an empty one, come the addresses of the authority and the
/// path, character for character. Only the `/` at its end are dropped, however many.
pub proof fn law_uri_parts(authority: Seq<char>, path: Seq<char>, slashes: nat)
    requires
        forall|i: int| 0 <= i < authority.len() ==> #[trigger] authority[i] != '/',
        path.len() > 0 ==> path[0] == '/' && path[path.len() - 1] != '/',
    ensures
        ({
            let uri = "gfs://"@ + authority + path + Seq::new(slashes, |i: int| '/');
            &&& has_prefix(uri, "gfs://"@)
            &&& uri_root(uri) == path
            &&& uri_addresses(uri) == list_items(authority)
        }),
{
    let tail = Seq::new(slashes, |i: int| '/');
    let uri = "gfs://"@ + authority + path + tail;
    let k = "gfs://"@.len() as int;
    let rest = uri_rest(uri);
    assert(rest =~= authority + path + tail);
    assert(uri.take(k) =~= "gfs://"@);
    assert forall|i: int| 0 <= i < authority.len() implies other_than('/')(#[trigger] rest[i]) by {
        assert(authority[i] != '/');
    }
    lemma_span_is(rest, other_than('/'), authority.len() as int);
    assert(rest.take(authority.len() as int) =~= authority);
    assert(rest.skip(authority.len() as int) =~= path + tail);
    law_trailing_characters_are_dropped(path, '/', slashes);
}

/// One address in the authority is the one master; two, separated by a comma, are both.
pub proof fn law_uri_addresses(x: Seq<char>, y: Seq<char>, path: Seq<char>)
    requires
        is_plain_item(x),
        is_plain_item(y),
        forall|i: int| 0 <= i < x.len() ==> #[trigger] x[i] != '/',
        forall|i: int| 0 <= i < y.len() ==> #[trigger] y[i] != '/',
        path.len() > 0 ==> path[0] == '/' && path[path.len() - 1] != '/',
    ensures
        uri_addresses("gfs://"@ + x + path) == seq![x],
        uri_root("gfs://"@ + x + path) == path,
        uri_addresses("gfs://"@ + (x + seq![','] + y) + path) == seq![x, y],
        uri_root("gfs://"@ + (x + seq![','] + y) + path) == path,
{
    let both = x + seq![','] + y;
    assert forall|i: int| 0 <= i < both.len() implies #[trigger] both[i] != '/' by {
        if i < x.len() {
            assert(x[i] != '/');
        } else if i > x.len() {
            assert(y[i - x.len() - 1] != '/');
        }
    }
    law_uri_parts(x, path, 0);
    law_uri_parts(both, path, 0);
    let none = Seq::new(0, |i: int| '/');
    assert("gfs://"@ + x + path + none =~= "gfs://"@ + x + path);
    assert("gfs://"@ + both + path + none =~= "gfs://"@ + both + path);
    lemma_list_entries(x, y);
}

/// A text is a URI of this kind exactly where its first six characters are `gfs://`.
pub proof fn law_scheme(uri: Seq<char>)
    ensures
        has_prefix(uri, "gfs://"@) <==> uri.len() >= 6 && uri[0] == 'g' && uri[1] == 'f' && uri[2]
            == 's' && uri[3] == ':' && uri[4] == '/' && uri[5] == '/',
{
    reveal_strlit("gfs://");
    if uri.len() >= 6 {
        let head = uri.take(6);
        assert(head.len() == 6);
        if uri[0] == 'g' && uri[1] == 'f' && uri[2] == 's' && uri[3] == ':' && uri[4] == '/'
            && uri[5] == '/' {
            assert(head =~= "gfs://"@);
        } else if has_prefix(uri, "gfs://"@) {
            assert(head =~= "gfs://"@);
            assert(uri[0] == head[0] && uri[1] == head[1] && uri[2] == head[2] && uri[3] == head[3]
                && uri[4] == head[4] && uri[5] == head[5]);
        }
    }
}

/// A URI without an authority names no address, whatever its path is.
pub proof fn law_uri_without_authority(path: Seq<char>)
    requires
        path.len() > 0 ==> path[0] == '/' && path[path.len() - 1] != '/',
    ensures
        uri_addresses("gfs://"@ + path).len() == 0,
        uri_root("gfs://"@ + path) == path,
{
    let e = Seq::<char>::empty();
    law_uri_parts(e, path, 0);
    law_list_splits_at_commas(e, e, e, e);
    assert(e + e + e =~= e);
    let none = Seq::new(0, |i: int| '/');
    assert("gfs://"@ + e + path + none =~= "gfs://"@ + path);
}

/// The error in words tells a wrong scheme from a missing address, and quotes the text.
pub proof fn law_uri_errors_are_told_apart(input: String)
    ensures
        (UriParseError::InvalidScheme { input }).message()
            == "invalid Goosefs URI (expected 'gfs://<host:port>[,...][/path]'): "@ + quoted(
            input@,
        ),
        (UriParseError::EmptyAuthority { input }).message()
            == "Goosefs URI has no master addresses: "@ + quoted(input@),
        (UriParseError::InvalidScheme { input }).text() == input@,
        (UriParseError::EmptyAuthority { input }).text() == input@,
{
}

} // verus!
