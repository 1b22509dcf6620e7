//! Request URLs: an origin, a path, and an ordered list of query parameters.

use vstd::prelude::*;
use vstd::string::*;

verus! {

/// One `name=value` pair of a query string. Both parts are written to the
/// URL exactly as they are held here.
#[derive(Debug, Clone)]
pub struct QueryParam {
    pub name: String,
    pub value: String,
}

impl View for QueryParam {
    type V = (Seq<char>, Seq<char>);

    open spec fn view(&self) -> (Seq<char>, Seq<char>) {
        (self.name@, self.value@)
    }
}

impl QueryParam {
    pub fn new(name: &str, value: &str) -> (param: QueryParam)
        ensures
            param@ == (name@, value@),
    {
        QueryParam { name: name.to_owned(), value: value.to_owned() }
    }
}

/// The parameters of a list, each as its pair of character sequences.
pub open spec fn param_views(params: Seq<QueryParam>) -> Seq<(Seq<char>, Seq<char>)> {
    params.map_values(|p: QueryParam| p@)
}

/// `name=value`.
pub open spec fn query_pair(param: (Seq<char>, Seq<char>)) -> Seq<char> {
    param.0 + "="@ + param.1
}

/// The pairs in order, with `&` between each two.
pub open spec fn join_params(params: Seq<(Seq<char>, Seq<char>)>) -> Seq<char>
    decreases params.len(),
{
    if params.len() == 0 {
        Seq::empty()
    } else if params.len() == 1 {
        query_pair(params[0])
    } else {
        join_params(params.drop_last()) + "&"@ + query_pair(params.last())
    }
}

/// The URL of a request: origin, path, `?`, and the joined parameters.
pub open spec fn url_of(
    base: Seq<char>,
    path: Seq<char>,
    params: Seq<(Seq<char>, Seq<char>)>,
) -> Seq<char> {
    base + path + "?"@ + join_params(params)
}

/// An origin carries no trailing slash.
pub open spec fn is_origin(base: Seq<char>) -> bool {
    base.len() == 0 || base.last() != '/'
}

/// A path begins with exactly one slash.
pub open spec fn is_path(path: Seq<char>) -> bool {
    &&& path.len() > 0
    &&& path[0] == '/'
    &&& path.len() > 1 ==> path[1] != '/'
}

/// Writes the URL of a request. Nothing is encoded here: names and values
/// appear as given, in the order of the list.
pub fn compose_url(base: &str, path: &str, params: &Vec<QueryParam>) -> (url: String)
    ensures
        url@ == url_of(base@, path@, param_views(params@)),
{
    let mut url = base.to_owned();
    url.append(path);
    url.append("?");
    let ghost views = param_views(params@);
    let mut i: usize = 0;
    while i < params.len()
        invariant
            i <= params@.len(),
            views == param_views(params@),
            url@ == base@ + path@ + "?"@ + join_params(views.take(i as int)),
        decreases params@.len() - i,
    {
        let ghost before = url@;
        if i > 0 {
            url.append("&");
        }
        url.append(params[i].name.as_str());
        url.append("=");
        url.append(params[i].value.as_str());
        proof {
            let next = views.take(i + 1);
            assert(next.drop_last() =~= views.take(i as int));
            assert(next.last() == params@[i as int]@);
            if i == 0 {
                assert(url@ =~= before + query_pair(next[0]));
            } else {
                assert(url@ =~= before + "&"@ + query_pair(next.last()));
            }
            assert(url@ =~= base@ + path@ + "?"@ + join_params(next));
        }
        i += 1;
    }
    proof {
        assert(views.take(i as int) =~= views);
    }
    url
}

/// Origin and path meet in a single slash: where the origin ends without
/// one and the path begins with exactly one, the URL is origin, path, `?`
/// and parameters, with the path's slash right behind the origin and no
/// slash on either side of it.
pub proof fn lemma_url_composition(
    base: Seq<char>,
    path: Seq<char>,
    params: Seq<(Seq<char>, Seq<char>)>,
)
    requires
        is_origin(base),
        is_path(path),
    ensures
        url_of(base, path, params) == base + path + "?"@ + join_params(params),
        url_of(base, path, params).len() == base.len() + path.len() + 1 + join_params(params).len(),
        url_of(base, path, params).subrange(0, base.len() as int) == base,
        url_of(base, path, params).subrange(base.len() as int, (base.len() + path.len()) as int) == path,
        url_of(base, path, params)[base.len() as int] == '/',
        base.len() > 0 ==> url_of(base, path, params)[base.len() - 1] != '/',
        url_of(base, path, params)[base.len() as int + 1] != '/',
{
    reveal_strlit("?");
    let url = url_of(base, path, params);
    assert(url.subrange(0, base.len() as int) =~= base);
    assert(url.subrange(base.len() as int, (base.len() + path.len()) as int) =~= path);
    assert(url[base.len() as int] == path[0]);
    if path.len() > 1 {
        assert(url[base.len() as int + 1] == path[1]);
    } else {
        assert(url[base.len() as int + 1] == '?');
    }
}

} // verus!
