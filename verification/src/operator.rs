//! Request routing: an ordered list of route handlers, tried in sequence;
//! the first that matches answers the request.
//!
//! A route inspects a [`Request`] (the parts of a parsed HTTP request that
//! routing reads) and reports one of three outcomes: it matched and produced
//! a response body, it did not match, or a parameter it needs is missing.
//! Some routes also ask for a side effect — the test route wants a marker
//! file created — which is reported as a flag for the caller to act on,
//! since file handling cannot stand in verified code.

use vstd::prelude::*;
use vstd::string::StringExecFns;

verus! {

/// The parts of an HTTP request that the server logic reads: the method and
/// the path, either of which a malformed or partial request may lack.
pub struct Request {
    pub method: Option<String>,
    pub path: Option<String>,
}

/// Mathematical model of a request.
pub ghost struct RequestView {
    pub method: Option<Seq<char>>,
    pub path: Option<Seq<char>>,
}

impl View for Request {
    type V = RequestView;

    open spec fn view(&self) -> RequestView {
        RequestView {
            method: (match self.method {
                Some(ref m) => Some(m@),
                None => None,
            }),
            path: (match self.path {
                Some(ref p) => Some(p@),
                None => None,
            }),
        }
    }
}

/// Why routing failed: no route matched at all, a single route did not
/// match, or a route lacked a parameter it needs.
#[derive(Debug)]
pub enum RouteError {
    UnknownRoute,
    RouteNotMatched,
    MissingParameter(&'static str),
}

/// Mathematical model of a routing failure.
pub ghost enum RouteErrorView {
    UnknownRoute,
    RouteNotMatched,
    MissingParameter(Seq<char>),
}

impl View for RouteError {
    type V = RouteErrorView;

    open spec fn view(&self) -> RouteErrorView {
        match self {
            RouteError::UnknownRoute => RouteErrorView::UnknownRoute,
            RouteError::RouteNotMatched => RouteErrorView::RouteNotMatched,
            RouteError::MissingParameter(n) => RouteErrorView::MissingParameter(n@),
        }
    }
}

/// What one route says about a request: a response body, no interest, or a
/// missing parameter.
pub enum RouteOutcome {
    Matched(String),
    NotMatched,
    MissingParameter(&'static str),
}

/// Mathematical model of a route outcome.
pub ghost enum RouteOutcomeView {
    Matched(Seq<char>),
    NotMatched,
    MissingParameter(Seq<char>),
}

impl View for RouteOutcome {
    type V = RouteOutcomeView;

    open spec fn view(&self) -> RouteOutcomeView {
        match self {
            RouteOutcome::Matched(s) => RouteOutcomeView::Matched(s@),
            RouteOutcome::NotMatched => RouteOutcomeView::NotMatched,
            RouteOutcome::MissingParameter(n) => RouteOutcomeView::MissingParameter(n@),
        }
    }
}

/// The test route: answers every request with a greeting, and asks for its
/// marker file to be created when the request path is `/test`.
pub struct TestOperator {
    filename: String,
}

/// What the test route says about a request, and whether it wants its file
/// created: a request without a path lacks the parameter; a request for
/// `/test` is greeted and wants the file; any other path is greeted alone.
pub open spec fn test_outcome(req: RequestView) -> (RouteOutcomeView, bool) {
    match req.path {
        None => (RouteOutcomeView::MissingParameter("path"@), false),
        Some(p) => if p == "/test"@ {
            (RouteOutcomeView::Matched("Hello"@), true)
        } else {
            (RouteOutcomeView::Matched("Hello"@), false)
        },
    }
}

impl TestOperator {
    /// The name of the marker file this route asks for.
    pub closed spec fn spec_filename(self) -> Seq<char> {
        self.filename@
    }

    /// A test route whose marker file is named `test`.
    pub fn new() -> (r: TestOperator)
        ensures
            r.spec_filename() == "test"@,
    {
        TestOperator { filename: String::from_str("test") }
    }

    /// The name of the marker file, for the caller that creates it.
    pub fn filename(&self) -> (r: &String)
        ensures
            r@ == self.spec_filename(),
    {
        &self.filename
    }

    /// Decide this route's outcome for a request, and whether the marker
    /// file should be created.
    pub fn resolve(&self, req: &Request) -> (r: (RouteOutcome, bool))
        ensures
            r.0@ == test_outcome(req@).0,
            r.1 == test_outcome(req@).1,
    {
        match &req.path {
            None => (RouteOutcome::MissingParameter("path"), false),
            Some(p) => {
                let probe = String::from_str("/test");
                let wants_file = *p == probe;
                (RouteOutcome::Matched(String::from_str("Hello")), wants_file)
            },
        }
    }
}

/// One entry in the routing table: the closed set of route handlers.
pub enum RouteEntry {
    Test(TestOperator),
}

/// What one routing-table entry says about a request.
pub open spec fn entry_outcome(e: RouteEntry, req: RequestView) -> (RouteOutcomeView, bool) {
    match e {
        RouteEntry::Test(_) => test_outcome(req),
    }
}

/// The routing decision over an ordered list of entries: the first entry
/// that matches answers the request (with its file flag); an entry that
/// lacks a parameter fails the request with that parameter's name; if every
/// entry passes, the route is unknown.
pub open spec fn dispatch_result(es: Seq<RouteEntry>, req: RequestView) -> (Result<
    Seq<char>,
    RouteErrorView,
>, bool)
    decreases es.len(),
{
    if es.len() == 0 {
        (Err(RouteErrorView::UnknownRoute), false)
    } else {
        match entry_outcome(es[0], req) {
            (RouteOutcomeView::Matched(s), w) => (Ok(s), w),
            (RouteOutcomeView::MissingParameter(n), _) => (
                Err(RouteErrorView::MissingParameter(n)),
                false,
            ),
            (RouteOutcomeView::NotMatched, _) => dispatch_result(es.drop_first(), req),
        }
    }
}

/// The model of an exec routing result.
pub open spec fn result_view(r: Result<String, RouteError>) -> Result<Seq<char>, RouteErrorView> {
    match r {
        Ok(s) => Ok(s@),
        Err(e) => Err(e@),
    }
}

/// The routing table: an ordered list of route handlers.
pub struct Operator {
    operators: Vec<RouteEntry>,
}

impl Operator {
    /// The entries of the table, in the order they are tried.
    pub closed spec fn spec_entries(self) -> Seq<RouteEntry> {
        self.operators@
    }

    /// The default routing table: the test route alone.
    pub fn new() -> (r: Operator)
        ensures
            r.spec_entries().len() == 1,
            (r.spec_entries()[0] matches RouteEntry::Test(t) && t.spec_filename() == "test"@),
    {
        let mut operators: Vec<RouteEntry> = Vec::new();
        operators.push(RouteEntry::Test(TestOperator::new()));
        Operator { operators }
    }

    /// Route a request: try each entry in order; the first match answers it.
    /// The second component reports whether the winning route wants its
    /// marker file created.
    pub fn dispatch(&mut self, req: &Request) -> (r: (Result<String, RouteError>, bool))
        ensures
            *final(self) == *old(self),
            result_view(r.0) == dispatch_result(old(self).spec_entries(), req@).0,
            r.1 == dispatch_result(old(self).spec_entries(), req@).1,
    {
        let ghost es: Seq<RouteEntry> = self.spec_entries();
        let mut i: usize = 0;
        while i < self.operators.len()
            invariant
                i <= self.operators.len(),
                es == self.spec_entries(),
                self == old(self),
                dispatch_result(es, req@) == dispatch_result(es.skip(i as int), req@),
            decreases self.operators.len() - i,
        {
            proof {
                assert(es.skip(i as int)[0] == es[i as int]);
            }
            let outcome = match &self.operators[i] {
                RouteEntry::Test(t) => t.resolve(req),
            };
            match outcome.0 {
                RouteOutcome::Matched(s) => {
                    return (Ok(s), outcome.1);
                },
                RouteOutcome::MissingParameter(n) => {
                    return (Err(RouteError::MissingParameter(n)), false);
                },
                RouteOutcome::NotMatched => {
                    proof {
                        assert(es.skip(i as int).drop_first() =~= es.skip(i + 1 as int));
                    }
                },
            }
            i = i + 1;
        }
        proof {
            assert(es.skip(self.operators@.len() as int) =~= Seq::<RouteEntry>::empty());
        }
        (Err(RouteError::UnknownRoute), false)
    }
}

} // verus!
