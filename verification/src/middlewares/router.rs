//! A router that picks a handler by the path of the request.

use crate::body::{Body, BodyStream};
use crate::handler::{answers_erased, box_handler, BoxedHandler, Handler};
use crate::request::Request;
use crate::responder::{BoxedResponse, Responder};
use crate::response::{with_status, ResponseBuilder};
use crate::uri::Uri;
use vstd::prelude::*;
use vstd::string::StringSliceAdditionalSpecFns;
use vstd::utf8::{encode_scalar, encode_utf8};

verus! {

/// `str::starts_with` with a string as the pattern: whether the text begins
/// with the prefix.
#[verifier::external_body]
fn starts_with(text: &str, prefix: &str) -> (out: bool)
    ensures
        out == prefix@.is_prefix_of(text@),
{
    text.starts_with(prefix)
}

/// The length of a pattern: the number of bytes of its text.
pub open spec fn pattern_len(pattern: Seq<char>) -> nat {
    encode_utf8(pattern).len()
}

/// Whether the pattern at a position matches a path: it is a prefix of it.
pub open spec fn is_match(patterns: Seq<Seq<char>>, path: Seq<char>, at: int) -> bool {
    0 <= at < patterns.len() && patterns[at].is_prefix_of(path)
}

/// Whether a path is routed to the pattern at a position: the pattern
/// matches the path, no pattern that matches it is longer, and of the matching
/// patterns of that length it comes first.
pub open spec fn routes_to(patterns: Seq<Seq<char>>, path: Seq<char>, at: int) -> bool {
    &&& is_match(patterns, path, at)
    &&& forall|other: int| #[trigger]
        is_match(patterns, path, other) ==> {
            ||| pattern_len(patterns[other]) < pattern_len(patterns[at])
            ||| pattern_len(patterns[other]) == pattern_len(patterns[at]) && at <= other
        }
}

/// The position of the pattern that a path is routed to, if any pattern
/// matches it.
pub open spec fn route(patterns: Seq<Seq<char>>, path: Seq<char>) -> Option<int> {
    if exists|at: int| routes_to(patterns, path, at) {
        Some(choose|at: int| routes_to(patterns, path, at))
    } else {
        None
    }
}

/// A path is routed to one position at most.
pub proof fn lemma_route_is_unique(patterns: Seq<Seq<char>>, path: Seq<char>, a: int, b: int)
    requires
        routes_to(patterns, path, a),
        routes_to(patterns, path, b),
    ensures
        a == b,
{
    assert(is_match(patterns, path, a));
    assert(is_match(patterns, path, b));
}

/// Whether no pattern occurs twice.
pub open spec fn are_distinct(patterns: Seq<Seq<char>>) -> bool {
    forall|i: int, j: int|
        0 <= i < j < patterns.len() ==> #[trigger] patterns[i] != #[trigger] patterns[j]
}

/// The bytes of a text are the bytes of its front followed by the bytes of
/// its rest.
proof fn lemma_encode_concat(front: Seq<char>, rest: Seq<char>)
    ensures
        encode_utf8(front + rest) == encode_utf8(front) + encode_utf8(rest),
    decreases front.len(),
{
    if front.len() == 0 {
        assert(front + rest =~= rest);
        assert(encode_utf8(front) + encode_utf8(rest) =~= encode_utf8(rest));
    } else {
        assert((front + rest).drop_first() =~= front.drop_first() + rest);
        lemma_encode_concat(front.drop_first(), rest);
        assert(encode_utf8(front + rest) =~= encode_utf8(front) + encode_utf8(rest));
    }
}

/// Two patterns that match the same path and are equally long are the same
/// pattern: a path has one prefix of each length at most.
pub proof fn lemma_equally_long_matches_are_equal(
    first: Seq<char>,
    second: Seq<char>,
    path: Seq<char>,
)
    requires
        first.is_prefix_of(path),
        second.is_prefix_of(path),
        pattern_len(first) == pattern_len(second),
    ensures
        first == second,
{
    if first.len() <= second.len() {
        lemma_prefix_of_equal_bytes(first, second, path);
    } else {
        lemma_prefix_of_equal_bytes(second, first, path);
    }
}

/// Of two prefixes of a path, the one with no more characters is the other
/// if it has as many bytes.
proof fn lemma_prefix_of_equal_bytes(short: Seq<char>, long: Seq<char>, path: Seq<char>)
    requires
        short.is_prefix_of(path),
        long.is_prefix_of(path),
        short.len() <= long.len(),
        pattern_len(short) == pattern_len(long),
    ensures
        short == long,
{
    let rest = long.subrange(short.len() as int, long.len() as int);
    assert(long =~= short + rest);
    lemma_encode_concat(short, rest);
    assert(encode_utf8(rest).len() == 0);
    if rest.len() > 0 {
        assert(encode_scalar(rest[0] as u32).len() > 0);
        assert(encode_utf8(rest).len() > 0);
    }
    assert(short =~= long);
}

/// Among patterns of which none occurs twice, a path is routed to the one
/// pattern that matches it and is at least as long as every pattern that
/// matches it: the longest prefix wins, and there are no ties.
pub proof fn lemma_longest_match_wins(patterns: Seq<Seq<char>>, path: Seq<char>, at: int)
    requires
        are_distinct(patterns),
        is_match(patterns, path, at),
        forall|other: int| #[trigger]
            is_match(patterns, path, other) ==> pattern_len(patterns[other]) <= pattern_len(
                patterns[at],
            ),
    ensures
        route(patterns, path) == Some(at),
{
    assert forall|other: int| #[trigger] is_match(patterns, path, other) implies {
        ||| pattern_len(patterns[other]) < pattern_len(patterns[at])
        ||| pattern_len(patterns[other]) == pattern_len(patterns[at]) && at <= other
    } by {
        if pattern_len(patterns[other]) == pattern_len(patterns[at]) {
            lemma_equally_long_matches_are_equal(patterns[other], patterns[at], path);
        }
    }
    assert(routes_to(patterns, path, at));
    lemma_route_is_unique(patterns, path, at, route(patterns, path)->0);
}

/// A path is routed to a pattern that matches it, and no pattern that
/// matches it is longer.
pub proof fn lemma_route_is_a_longest_match(patterns: Seq<Seq<char>>, path: Seq<char>)
    ensures
        route(patterns, path) matches Some(at) ==> is_match(patterns, path, at) && forall|
            other: int,
        | #[trigger]
            is_match(patterns, path, other) ==> pattern_len(patterns[other]) <= pattern_len(
                patterns[at],
            ),
{
}

/// A path is routed nowhere exactly when no pattern matches it.
pub proof fn lemma_route_none(patterns: Seq<Seq<char>>, path: Seq<char>)
    ensures
        route(patterns, path) is None <==> forall|at: int| !is_match(patterns, path, at),
{
    if exists|at: int| is_match(patterns, path, at) {
        let first = choose|at: int| is_match(patterns, path, at);
        lemma_some_route(patterns, path, first);
    } else {
        assert forall|at: int| !routes_to(patterns, path, at) by {
            assert(!is_match(patterns, path, at));
        }
    }
}

/// Where a pattern matches a path, the path is routed somewhere.
proof fn lemma_some_route(patterns: Seq<Seq<char>>, path: Seq<char>, witness: int)
    requires
        is_match(patterns, path, witness),
    ensures
        exists|at: int| routes_to(patterns, path, at),
{
    let best = best_upto(patterns, path, patterns.len() as int);
    lemma_best_upto(patterns, path, patterns.len() as int);
    assert(routes_to(patterns, path, best->0));
}

/// The first of the longest patterns among the first `upto` that match a
/// path: what a scan from the front has found after `upto` patterns.
spec fn best_upto(patterns: Seq<Seq<char>>, path: Seq<char>, upto: int) -> Option<int>
    decreases upto,
{
    if upto <= 0 {
        None
    } else {
        let before = best_upto(patterns, path, upto - 1);
        if is_match(patterns, path, upto - 1) && (before matches Some(at) ==> pattern_len(
            patterns[at],
        ) < pattern_len(patterns[upto - 1])) {
            Some(upto - 1)
        } else {
            before
        }
    }
}

/// What the scan has found is the best match among the patterns it has seen.
proof fn lemma_best_upto(patterns: Seq<Seq<char>>, path: Seq<char>, upto: int)
    requires
        0 <= upto <= patterns.len(),
    ensures
        match best_upto(patterns, path, upto) {
            None => forall|at: int| 0 <= at < upto ==> !is_match(patterns, path, at),
            Some(best) => {
                &&& 0 <= best < upto
                &&& is_match(patterns, path, best)
                &&& forall|other: int|
                    0 <= other < upto && #[trigger] is_match(patterns, path, other) ==> {
                        ||| pattern_len(patterns[other]) < pattern_len(patterns[best])
                        ||| pattern_len(patterns[other]) == pattern_len(patterns[best]) && best
                            <= other
                    }
            },
        },
    decreases upto,
{
    if upto > 0 {
        lemma_best_upto(patterns, path, upto - 1);
    }
}

/// After the scan has seen all patterns, what it has found is where the path
/// is routed to.
proof fn lemma_best_is_route(patterns: Seq<Seq<char>>, path: Seq<char>)
    ensures
        best_upto(patterns, path, patterns.len() as int) == route(patterns, path),
{
    lemma_best_upto(patterns, path, patterns.len() as int);
    match best_upto(patterns, path, patterns.len() as int) {
        None => {
            assert forall|at: int| !routes_to(patterns, path, at) by {
                if is_match(patterns, path, at) {
                    assert(0 <= at < patterns.len());
                }
            }
        },
        Some(best) => {
            assert(routes_to(patterns, path, best));
            lemma_route_is_unique(patterns, path, best, route(patterns, path)->0);
        },
    }
}

/// A pattern and the handler that is registered for it.
struct Route {
    pattern: String,
    handler: BoxedHandler,
}

/// A router: handlers, each registered for a pattern of its own. A request
/// goes to the handler whose pattern is the longest prefix of its path, and
/// is answered with 404 where no pattern is a prefix of its path.
///
/// The length of a pattern is counted in bytes. Two patterns that are
/// prefixes of one path and equally long are the same pattern, and no pattern
/// is registered twice, so there is never a tie between handlers.
pub struct SimpleRouter {
    routes: Vec<Route>,
}

impl SimpleRouter {
    #[verifier::type_invariant]
    spec fn patterns_are_distinct(&self) -> bool {
        forall|i: int, j: int|
            0 <= i < j < self.routes@.len() ==> #[trigger] self.routes@[i].pattern@
                != #[trigger] self.routes@[j].pattern@
    }

    /// The patterns, in the order in which they were registered.
    pub closed spec fn patterns(&self) -> Seq<Seq<char>> {
        Seq::new(self.routes@.len(), |i: int| self.routes@[i].pattern@)
    }

    /// The handler registered for the pattern at a position.
    pub closed spec fn handler_at(&self, at: int) -> BoxedHandler {
        self.routes@[at].handler
    }

    /// A router with no handlers.
    pub fn new() -> (out: SimpleRouter)
        ensures
            out.patterns() == Seq::<Seq<char>>::empty(),
    {
        let out = SimpleRouter { routes: Vec::new() };
        assert(out.patterns() =~= Seq::empty());
        out
    }

    /// Whether a handler is registered for the pattern.
    pub fn is_registered(&self, pattern: &str) -> (out: bool)
        ensures
            out == self.patterns().contains(pattern@),
            are_distinct(self.patterns()),
    {
        proof {
            use_type_invariant(self);
        }
        let wanted = pattern.to_owned();
        let mut i: usize = 0;
        while i < self.routes.len()
            invariant
                i <= self.routes@.len(),
                wanted@ == pattern@,
                are_distinct(self.patterns()),
                forall|j: int| 0 <= j < i ==> self.patterns()[j] != pattern@,
            decreases self.routes@.len() - i,
        {
            if self.routes[i].pattern == wanted {
                assert(self.patterns()[i as int] == pattern@);
                return true;
            }
            i = i + 1;
        }
        false
    }

    /// Registers a handler for a pattern: from now on the requests whose
    /// path the pattern is the longest prefix of go to this handler, with the
    /// types of its bodies erased.
    ///
    /// A pattern can be registered once only.
    pub fn register_handler<H, ReqBody>(&mut self, pattern: &str, handler: H) where
        H: Handler<ReqBody>,
        ReqBody: Body,

        requires
            !old(self).patterns().contains(pattern@),
        ensures
            final(self).patterns() == old(self).patterns().push(pattern@),
            forall|at: int|
                0 <= at < old(self).patterns().len() ==> #[trigger] final(self).handler_at(at)
                    == old(self).handler_at(at),
            forall|req: Request<BodyStream>, resp: ResponseBuilder, answer: BoxedResponse|
                #[trigger] final(self).handler_at(old(self).patterns().len() as int).responds(
                    req,
                    resp,
                    answer,
                ) <==> answers_erased::<ReqBody, H>(handler, req, resp, answer),
    {
        proof {
            use_type_invariant(&*self);
        }
        let ghost before = self.patterns();
        let boxed = box_handler::<ReqBody, H>(handler);
        assert forall|at: int| 0 <= at < before.len() implies before[at] != pattern@ by {
            assert(before.contains(before[at]));
        }
        let mut taken = SimpleRouter::new();
        std::mem::swap(self, &mut taken);
        proof {
            use_type_invariant(&taken);
        }
        let mut routes = taken.routes;
        assert forall|at: int| 0 <= at < routes@.len() implies routes@[at].pattern@
            != pattern@ by {
            assert(before[at] == routes@[at].pattern@);
        }
        routes.push(Route { pattern: pattern.to_owned(), handler: boxed });
        *self = SimpleRouter { routes };
        assert(self.patterns() =~= before.push(pattern@));
    }

    /// Registers a handler for a pattern unless one is registered for it
    /// already: tells whether the handler was registered, and leaves the
    /// router as it is where it was not.
    pub fn try_register_handler<H, ReqBody>(&mut self, pattern: &str, handler: H) -> (out: bool) where
        H: Handler<ReqBody>,
        ReqBody: Body,

        ensures
            out == !old(self).patterns().contains(pattern@),
            !out ==> *final(self) == *old(self),
            out ==> final(self).patterns() == old(self).patterns().push(pattern@),
            out ==> forall|at: int|
                0 <= at < old(self).patterns().len() ==> #[trigger] final(self).handler_at(at)
                    == old(self).handler_at(at),
            out ==> forall|req: Request<BodyStream>, resp: ResponseBuilder, answer: BoxedResponse|
                #[trigger] final(self).handler_at(old(self).patterns().len() as int).responds(
                    req,
                    resp,
                    answer,
                ) <==> answers_erased::<ReqBody, H>(handler, req, resp, answer),
    {
        if self.is_registered(pattern) {
            false
        } else {
            self.register_handler::<H, ReqBody>(pattern, handler);
            true
        }
    }

    /// The pattern that the path of a URI is routed to, and the handler
    /// registered for it, or `None` where no pattern matches the path.
    pub fn handler(&self, uri: &Uri) -> (out: Option<(&String, &BoxedHandler)>)
        ensures
            match route(self.patterns(), uri.path_view()) {
                None => out is None,
                Some(at) => out matches Some((pattern, handler)) && pattern@ == self.patterns()[at]
                    && *handler == self.handler_at(at),
            },
            are_distinct(self.patterns()),
    {
        proof {
            use_type_invariant(self);
        }
        match self.find(uri.path()) {
            None => None,
            Some(at) => {
                let pattern = &self.routes[at].pattern;
                let handler = &self.routes[at].handler;
                assert(pattern@ == self.patterns()[at as int]);
                assert(*handler == self.handler_at(at as int));
                Some((pattern, handler))
            },
        }
    }

    /// The position that a path is routed to, found by a scan of all
    /// patterns.
    fn find(&self, path: &str) -> (out: Option<usize>)
        ensures
            match route(self.patterns(), path@) {
                None => out is None,
                Some(at) => out matches Some(found) && found == at && 0 <= at < self.routes@.len(),
            },
    {
        let mut best: Option<usize> = None;
        let mut i: usize = 0;
        while i < self.routes.len()
            invariant
                i <= self.routes@.len(),
                self.patterns().len() == self.routes@.len(),
                match best_upto(self.patterns(), path@, i as int) {
                    None => best is None,
                    Some(at) => best matches Some(found) && found == at && 0 <= at < i,
                },
            decreases self.routes@.len() - i,
        {
            let pattern = self.routes[i].pattern.as_str();
            assert(pattern@ == self.patterns()[i as int]);
            let longer = match best {
                None => true,
                Some(at) => {
                    assert(self.routes@[at as int].pattern@ == self.patterns()[at as int]);
                    self.routes[at].pattern.as_str().as_bytes().len() < pattern.as_bytes().len()
                },
            };
            let ghost before = best_upto(self.patterns(), path@, i as int);
            assert(pattern.spec_bytes().len() == pattern_len(self.patterns()[i as int]));
            assert(longer == (before matches Some(at) ==> pattern_len(self.patterns()[at])
                < pattern_len(self.patterns()[i as int])));
            if longer && starts_with(path, pattern) {
                assert(is_match(self.patterns(), path@, i as int));
                best = Some(i);
            } else {
                assert(!longer || !is_match(self.patterns(), path@, i as int));
            }
            i = i + 1;
        }
        proof {
            lemma_best_is_route(self.patterns(), path@);
        }
        best
    }
}

impl Default for SimpleRouter {
    fn default() -> (out: SimpleRouter)
        ensures
            out.patterns() == Seq::<Seq<char>>::empty(),
    {
        SimpleRouter::new()
    }
}

/// Whether `out` is the answer that a request gets which no pattern matches:
/// the response that `resp` gives with status 404 and an empty body, or the
/// failure that `resp` has met before.
pub open spec fn answers_not_found(resp: ResponseBuilder, out: BoxedResponse) -> bool {
    match with_status(resp@, 404) {
        Ok(head) => out matches Ok(response) && response.head@ == head && response.body@
            == crate::body::single(Seq::empty()),
        Err(error) => out == Err::<crate::response::Response<BodyStream>, crate::errors::Error>(
            error,
        ),
    }
}

/// The router answers a request as the handler does that its path is routed
/// to, and with 404 where it is routed to none.
impl Handler<BodyStream> for SimpleRouter {
    type Resp = BoxedResponse;

    open spec fn responds(&self, req: Request<BodyStream>, resp: ResponseBuilder, out: BoxedResponse) -> bool {
        match route(self.patterns(), req.head.uri.path_view()) {
            Some(at) => self.handler_at(at).responds(req, resp, out),
            None => answers_not_found(resp, out),
        }
    }

    fn handle(&self, req: Request<BodyStream>, resp: ResponseBuilder) -> (out: BoxedResponse) {
        match self.find(req.uri().path()) {
            Some(at) => self.routes[at].handler.handle(req, resp),
            None => {
                let answer = resp.status(404).body(());
                let out = answer.into_response();
                assert(answers_not_found(resp, out));
                out
            },
        }
    }
}

} // verus!
