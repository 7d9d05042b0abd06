//! Transaction naming: a transaction is named after the request's matched
//! route, as `<base path without leading slashes>/<handler name>`, with
//! `unknown_handler` standing in for a missing handler name, and for the
//! whole name when no route matched at all.

use vstd::prelude::*;
use vstd::string::StrSliceExecFns;
use vstd::string::StringExecFns;

verus! {

/// What the naming logic reads of a matched route: its base path and the
/// name of its handler, if the route declares one.
pub struct RouteInfo {
    pub base: String,
    pub handler: Option<String>,
}

/// The name used for a handler (or a whole route) that has no name of its own.
pub open spec fn spec_placeholder() -> Seq<char> {
    "unknown_handler"@
}

/// A base path with every leading `'/'` removed.
pub open spec fn spec_strip_slashes(s: Seq<char>) -> Seq<char>
    decreases s.len(),
{
    if s.len() > 0 && s[0] == '/' {
        spec_strip_slashes(s.drop_first())
    } else {
        s
    }
}

/// The transaction name derived from an optional matched route.
pub open spec fn spec_transaction_name(route: Option<RouteInfo>) -> Seq<char> {
    match route {
        Option::Some(r) => spec_strip_slashes(r.base@) + "/"@ + (match r.handler {
            Option::Some(h) => h@,
            Option::None => spec_placeholder(),
        }),
        Option::None => spec_placeholder(),
    }
}

/// The value an `Option<&RouteInfo>` argument stands for.
pub open spec fn route_view(route: Option<&RouteInfo>) -> Option<RouteInfo> {
    match route {
        Option::Some(r) => Option::Some(*r),
        Option::None => Option::None,
    }
}

proof fn lemma_strip_skip(s: Seq<char>, i: int)
    requires
        0 <= i <= s.len(),
        forall|j: int| 0 <= j < i ==> s[j] == '/',
    ensures
        spec_strip_slashes(s) == spec_strip_slashes(s.subrange(i, s.len() as int)),
    decreases i,
{
    if i > 0 {
        assert(s[0] == '/');
        lemma_strip_skip(s.drop_first(), i - 1);
        assert(s.drop_first().subrange(i - 1, s.drop_first().len() as int) =~= s.subrange(
            i,
            s.len() as int,
        ));
    } else {
        assert(s.subrange(0, s.len() as int) =~= s);
    }
}

/// Remove every leading `'/'` from a base path.
pub fn strip_leading_slashes(s: &str) -> (r: String)
    ensures
        r@ == spec_strip_slashes(s@),
{
    let len = s.unicode_len();
    let mut i: usize = 0;
    while i < len && s.get_char(i) == '/'
        invariant
            i <= len,
            len == s@.len(),
            forall|j: int| 0 <= j < i ==> s@[j] == '/',
        decreases len - i,
    {
        i = i + 1;
    }
    proof {
        lemma_strip_skip(s@, i as int);
        if i < len {
            assert(s@.subrange(i as int, len as int)[0] != '/');
        }
    }
    String::from_str(s.substring_char(i, len))
}

/// The transaction name for a request: `"<base>/<handler>"` for a matched
/// route (base stripped of leading slashes, `unknown_handler` for a route
/// without a handler name), and `"unknown_handler"` when no route matched.
pub fn transaction_name(route: Option<&RouteInfo>) -> (name: String)
    ensures
        name@ == spec_transaction_name(route_view(route)),
{
    match route {
        Option::Some(r) => {
            let mut name = strip_leading_slashes(r.base.as_str());
            name.append("/");
            match &r.handler {
                Option::Some(h) => name.append(h.as_str()),
                Option::None => name.append("unknown_handler"),
            }
            name
        },
        Option::None => String::from_str("unknown_handler"),
    }
}

} // verus!
