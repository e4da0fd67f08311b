use vstd::prelude::*;
use crate::strutil::str_equal;

verus! {

/// Status code of a permanent-redirect response.
pub const STATUS_MOVED_PERMANENTLY: u16 = 301;

/// Status code of a not-found response.
pub const STATUS_NOT_FOUND: u16 = 404;

/// The fixed route table: each known path mapped to its redirect destination.
pub open spec fn route_table() -> Map<Seq<char>, Seq<char>> {
    map![
        "/"@ => "https://sukawasatoru.com/"@,
        "/android-emulator"@ => "http://sukawasatoru.com/docs/android-emulator"@,
        "/android-things-raspberry-pi-3"@ => "http://sukawasatoru.com/docs/android-things-raspberry-pi-3"@,
        "/jenkins"@ => "http://sukawasatoru.com/docs/jenkins"@,
        "/surfacepro3-recovery"@ => "https://sukawasatoru.com/docs/surfacepro3-recovery"@,
    ]
}

/// One entry of the route table: a path and the destination it redirects to.
pub struct Route {
    pub path: &'static str,
    pub destination: &'static str,
}

/// The route table as data: every entry agrees with `route_table()`, and
/// every key of `route_table()` is the path of one of the entries.
pub fn routes() -> (r: Vec<Route>)
    ensures
        r@.len() == 5,
        forall|i: int|
            0 <= i < r@.len() ==> route_table().contains_key(#[trigger] r@[i].path@)
                && route_table()[r@[i].path@] == r@[i].destination@,
        forall|k: Seq<char>|
            route_table().contains_key(k) ==> k == r@[0].path@ || k == r@[1].path@
                || k == r@[2].path@ || k == r@[3].path@ || k == r@[4].path@,
{
    let mut r: Vec<Route> = Vec::new();
    r.push(Route { path: "/", destination: "https://sukawasatoru.com/" });
    r.push(Route { path: "/android-emulator", destination: "http://sukawasatoru.com/docs/android-emulator" });
    r.push(Route {
        path: "/android-things-raspberry-pi-3",
        destination: "http://sukawasatoru.com/docs/android-things-raspberry-pi-3",
    });
    r.push(Route { path: "/jenkins", destination: "http://sukawasatoru.com/docs/jenkins" });
    r.push(Route { path: "/surfacepro3-recovery", destination: "https://sukawasatoru.com/docs/surfacepro3-recovery" });
    proof {
        reveal_strlit("/");
        reveal_strlit("/android-emulator");
        reveal_strlit("/android-things-raspberry-pi-3");
        reveal_strlit("/jenkins");
        reveal_strlit("/surfacepro3-recovery");
        // The five keys have pairwise distinct lengths, so each map lookup
        // reaches its own entry.
        assert("/"@.len() == 1);
        assert("/android-emulator"@.len() == 17);
        assert("/android-things-raspberry-pi-3"@.len() == 30);
        assert("/jenkins"@.len() == 8);
        assert("/surfacepro3-recovery"@.len() == 21);
        assert(route_table()["/"@] == "https://sukawasatoru.com/"@);
        assert(route_table()["/android-emulator"@] == "http://sukawasatoru.com/docs/android-emulator"@);
        assert(route_table()["/android-things-raspberry-pi-3"@]
            == "http://sukawasatoru.com/docs/android-things-raspberry-pi-3"@);
        assert(route_table()["/jenkins"@] == "http://sukawasatoru.com/docs/jenkins"@);
        assert(route_table()["/surfacepro3-recovery"@] == "https://sukawasatoru.com/docs/surfacepro3-recovery"@);
    }
    r
}

/// Mathematical model of a response: a status code, the header mapping
/// (only `Location` is ever set, and only on a redirect), and the body.
#[verifier::ext_equal]
pub ghost struct ResponseModel {
    pub status: int,
    pub headers: Map<Seq<char>, Seq<char>>,
    pub body: Seq<u8>,
}

/// A response descriptor: one of exactly two shapes, a 301 redirect carrying
/// a `Location` header, or a 404 with no headers. The body is always empty.
pub struct Response {
    pub status: u16,
    pub location: Option<String>,
    pub body: Vec<u8>,
}

impl View for Response {
    type V = ResponseModel;

    open spec fn view(&self) -> ResponseModel {
        ResponseModel {
            status: self.status as int,
            headers: match self.location {
                Some(l) => map!["Location"@ => l@],
                None => Map::empty(),
            },
            body: self.body@,
        }
    }
}

/// The model of a not-found response: 404, no headers, empty body.
pub open spec fn not_found_model() -> ResponseModel {
    ResponseModel { status: 404, headers: Map::empty(), body: Seq::empty() }
}

/// The model of a redirect response: 301, `Location` set to the destination,
/// empty body.
pub open spec fn redirect_model(destination: Seq<char>) -> ResponseModel {
    ResponseModel { status: 301, headers: map!["Location"@ => destination], body: Seq::empty() }
}

/// What the router returns for a method and a path: a redirect where the
/// method is GET and the path is a key of the route table, 404 otherwise.
pub open spec fn spec_router(method: Seq<char>, path: Seq<char>) -> ResponseModel {
    if method == "GET"@ && route_table().contains_key(path) {
        redirect_model(route_table()[path])
    } else {
        not_found_model()
    }
}

impl Response {
    /// Builds the not-found response.
    pub fn not_found() -> (r: Response)
        ensures
            r@ == not_found_model(),
    {
        Response { status: STATUS_NOT_FOUND, location: None, body: Vec::new() }
    }

    /// Builds the redirect response to the given destination.
    pub fn redirect(destination: &str) -> (r: Response)
        ensures
            r@ == redirect_model(destination@),
    {
        Response {
            status: STATUS_MOVED_PERMANENTLY,
            location: Some(destination.to_owned()),
            body: Vec::new(),
        }
    }
}

/// Looks a path up in the route table by exact, case-sensitive comparison:
/// the destination where the path is a key, nothing otherwise.
pub fn lookup(path: &str) -> (r: Option<&'static str>)
    ensures
        match r {
            Some(d) => route_table().contains_key(path@) && d@ == route_table()[path@],
            None => !route_table().contains_key(path@),
        },
{
    let table = routes();
    let mut i: usize = 0;
    while i < table.len()
        invariant
            i <= table@.len(),
            table@.len() == 5,
            forall|j: int|
                0 <= j < table@.len() ==> route_table().contains_key(#[trigger] table@[j].path@)
                    && route_table()[table@[j].path@] == table@[j].destination@,
            forall|k: Seq<char>|
                route_table().contains_key(k) ==> k == table@[0].path@ || k == table@[1].path@
                    || k == table@[2].path@ || k == table@[3].path@ || k == table@[4].path@,
            forall|j: int| 0 <= j < i ==> path@ != #[trigger] table@[j].path@,
        decreases table@.len() - i,
    {
        if str_equal(path, table[i].path) {
            return Some(table[i].destination);
        }
        i += 1;
    }
    None
}

/// The redirect router: a pure mapping from an HTTP method and a request
/// path to a response descriptor. A GET whose path stands in the route table
/// is answered with a 301 redirect to the table's destination; every other
/// request is answered with 404. It cannot fail: every input maps to one of
/// those two responses.
pub fn router(method: &str, path: &str) -> (r: Response)
    ensures
        r@ == spec_router(method@, path@),
{
    if !str_equal(method, "GET") {
        return Response::not_found();
    }
    match lookup(path) {
        Some(destination) => Response::redirect(destination),
        None => Response::not_found(),
    }
}

/// The router is total and has no failure modes: every method and path maps
/// to one of exactly two response shapes, the not-found response or a
/// redirect to the route table's destination for the path.
pub proof fn lemma_router_total(method: Seq<char>, path: Seq<char>)
    ensures
        spec_router(method, path) == not_found_model() || (route_table().contains_key(path)
            && spec_router(method, path) == redirect_model(route_table()[path])),
{
}

/// For every method other than GET and every path, the router answers 404,
/// with no headers and an empty body; the path is never inspected.
pub proof fn lemma_non_get_is_not_found(method: Seq<char>, path: Seq<char>)
    requires
        method != "GET"@,
    ensures
        spec_router(method, path) == not_found_model(),
{
}

/// For every GET whose path is a key of the route table, the router answers
/// 301 with `Location` set to the table's destination and an empty body.
pub proof fn lemma_get_known_path_redirects(path: Seq<char>)
    requires
        route_table().contains_key(path),
    ensures
        spec_router("GET"@, path) == redirect_model(route_table()[path]),
        spec_router("GET"@, path).status == 301,
        spec_router("GET"@, path).headers == map!["Location"@ => route_table()[path]],
        spec_router("GET"@, path).body == Seq::<u8>::empty(),
{
}

/// For every GET whose path is not a key of the route table, the router
/// answers 404, with no headers and an empty body.
pub proof fn lemma_get_unknown_path_is_not_found(path: Seq<char>)
    requires
        !route_table().contains_key(path),
    ensures
        spec_router("GET"@, path) == not_found_model(),
{
}

/// The router is a pure function of its input: two responses to the same
/// method and path are equal. Together with `router`'s postcondition, which
/// pins each response to `spec_router`, repeated calls yield identical
/// output.
pub proof fn lemma_router_idempotent(
    method: Seq<char>,
    path: Seq<char>,
    r1: ResponseModel,
    r2: ResponseModel,
)
    requires
        r1 == spec_router(method, path),
        r2 == spec_router(method, path),
    ensures
        r1 == r2,
{
}

/// Matching is exact on the full character sequence of the path: a GET is
/// redirected exactly when that sequence is a key of the route table, so two
/// paths that differ in any character (case included) cannot both match the
/// same entry.
pub proof fn lemma_match_is_exact(path: Seq<char>)
    ensures
        spec_router("GET"@, path).status == 301 <==> route_table().contains_key(path),
        spec_router("GET"@, path).status == 301 || spec_router("GET"@, path).status == 404,
{
}

} // verus!
