//! The dispatch protocol and the service adapter.
//!
//! An [`ODataResource`] evaluates the three-way ownership decision for
//! its envelope: serve the request at an exact path match, delegate a
//! strict prefix match to the payload with the matched prefix
//! stripped, and decline anything unrelated.  The absolute address an
//! envelope is served at travels down the recursion beside the
//! ever-shorter remainder, so a nested resource answers with absolute
//! identities even though it is mounted under a relative path.  A
//! [`ResourceService`] bridges the outcome into a response, supplying
//! the not-found default.

use vstd::prelude::*;
use vstd::string::StringExecFns;
use crate::odata::envelope_json;
use crate::odata::Resource;
use crate::odata::ResourceMetadata;
use crate::odata::Serialize;
use crate::path::path_starts_with;
use crate::path::strip_path_prefix;
use crate::path::ResourcePath;
use crate::redfish::ServiceEndpoint;

verus! {

/// A request method.
#[derive(Clone, Copy, PartialEq, Eq, Structural, Debug)]
pub enum Method {
    Get,
    Head,
    Post,
    Put,
    Delete,
    Connect,
    Options,
    Trace,
    Patch,
}

/// The name a method shows on the wire.
pub open spec fn method_name(m: Method) -> Seq<char> {
    match m {
        Method::Get => "GET"@,
        Method::Head => "HEAD"@,
        Method::Post => "POST"@,
        Method::Put => "PUT"@,
        Method::Delete => "DELETE"@,
        Method::Connect => "CONNECT"@,
        Method::Options => "OPTIONS"@,
        Method::Trace => "TRACE"@,
        Method::Patch => "PATCH"@,
    }
}

impl Method {
    pub fn as_str(&self) -> (r: &'static str)
        ensures
            r@ == method_name(*self),
    {
        match self {
            Method::Get => "GET",
            Method::Head => "HEAD",
            Method::Post => "POST",
            Method::Put => "PUT",
            Method::Delete => "DELETE",
            Method::Connect => "CONNECT",
            Method::Options => "OPTIONS",
            Method::Trace => "TRACE",
            Method::Patch => "PATCH",
        }
    }
}

/// What the transport hands in: the request's absolute path and its
/// method.
pub struct Request {
    pub path: ResourcePath,
    pub method: Method,
}

/// The mathematical shape of a response.
#[verifier::ext_equal]
pub struct ResponseModel {
    pub status: int,
    pub headers: Seq<(Seq<char>, Seq<char>)>,
    pub body: Seq<char>,
}

/// What the transport takes out: a status code, a header list, and a
/// body.
pub struct Response {
    pub status: u16,
    pub headers: Vec<(String, String)>,
    pub body: String,
}

impl View for Response {
    type V = ResponseModel;

    open spec fn view(&self) -> ResponseModel {
        ResponseModel {
            status: self.status as int,
            headers: self.headers@.map_values(|h: (String, String)| (h.0@, h.1@)),
            body: self.body@,
        }
    }
}

/// The not-found default: an empty body under status 404.
pub open spec fn not_found_model() -> ResponseModel {
    ResponseModel { status: 404, headers: Seq::empty(), body: Seq::empty() }
}

/// No envelope in the tree claims the path.
pub struct NotFound;

impl NotFound {
    pub fn into_response(self) -> (r: Response)
        ensures
            r@ == not_found_model(),
    {
        let r = Response { status: 404, headers: Vec::new(), body: String::new() };
        proof {
            assert(r@ =~= not_found_model());
        }
        r
    }
}

/// The Allow header value: the method names joined by a comma and a
/// space, in the order given.
pub open spec fn allow_list(ms: Seq<Method>) -> Seq<char>
    decreases ms.len(),
{
    if ms.len() == 0 {
        Seq::empty()
    } else if ms.len() == 1 {
        method_name(ms[0])
    } else {
        method_name(ms[0]) + ", "@ + allow_list(ms.drop_first())
    }
}

/// Extending the method list appends one name behind the separator,
/// or alone into an empty list.
pub proof fn lemma_allow_list_push(ms: Seq<Method>, m: Method)
    ensures
        allow_list(ms.push(m)) == if ms.len() == 0 {
            method_name(m)
        } else {
            allow_list(ms) + ", "@ + method_name(m)
        },
    decreases ms.len(),
{
    if ms.len() == 0 {
        assert(allow_list(ms.push(m)) =~= method_name(m));
    } else {
        assert(ms.push(m).drop_first() =~= ms.drop_first().push(m));
        lemma_allow_list_push(ms.drop_first(), m);
        assert(allow_list(ms.push(m)) =~= allow_list(ms) + ", "@ + method_name(m));
    }
}

/// The method-not-allowed response: an empty body under status 405,
/// with the supported methods in the Allow header.
pub open spec fn method_not_allowed_model(ms: Seq<Method>) -> ResponseModel {
    ResponseModel {
        status: 405,
        headers: seq![("Allow"@, allow_list(ms))],
        body: Seq::empty(),
    }
}

/// A path resolved to an envelope whose methods do not include the
/// request's.
pub struct MethodNotAllowed {
    allowed: Vec<Method>,
}

impl MethodNotAllowed {
    pub closed spec fn allowed_spec(&self) -> Seq<Method> {
        self.allowed@
    }

    pub fn new(allowed: Vec<Method>) -> (r: Self)
        ensures
            r.allowed_spec() == allowed@,
    {
        MethodNotAllowed { allowed }
    }

    pub fn into_response(self) -> (r: Response)
        ensures
            r@ == method_not_allowed_model(self.allowed_spec()),
    {
        let mut value = String::new();
        let mut i: usize = 0;
        while i < self.allowed.len()
            invariant
                0 <= i <= self.allowed.len(),
                value@ == allow_list(self.allowed@.take(i as int)),
            decreases self.allowed.len() - i,
        {
            if i > 0 {
                value.append(", ");
            }
            value.append(self.allowed[i].as_str());
            proof {
                reveal_strlit(", ");
                assert(self.allowed@.take(i + 1) =~= self.allowed@.take(i as int).push(
                    self.allowed@[i as int],
                ));
                lemma_allow_list_push(self.allowed@.take(i as int), self.allowed@[i as int]);
            }
            i += 1;
        }
        proof {
            assert(self.allowed@.take(self.allowed.len() as int) =~= self.allowed@);
        }
        let mut headers: Vec<(String, String)> = Vec::new();
        headers.push((String::from_str("Allow"), value));
        let r = Response { status: 405, headers, body: String::new() };
        proof {
            assert(r@.headers =~= seq![("Allow"@, allow_list(self.allowed@))]);
            assert(r@ =~= method_not_allowed_model(self.allowed_spec()));
        }
        r
    }
}

/// Whether an answered response agrees with the modelled routing
/// decision.
pub open spec fn response_matches(r: Option<Response>, m: Option<ResponseModel>) -> bool {
    match (r, m) {
        (Some(resp), Some(model)) => resp@ == model,
        (None, None) => true,
        _ => false,
    }
}

/// The capability of a payload to answer, given a request path,
/// whether it owns that path: an answer serves it, no answer declines
/// it.  As with serialization, the payload is told the absolute
/// address `me` of its owning envelope, so that the child envelopes it
/// holds — mounted under relative paths — can be served under their
/// absolute addresses.
pub trait Dispatch: ResourceMetadata {
    /// The routing decision as a mathematical function of the payload,
    /// the path, the method, and the owning envelope's address.
    spec fn route(&self, path: Seq<char>, method: Method, me: Seq<char>) -> Option<ResponseModel>;

    /// Answers exactly as [`Self::route`] decides.
    fn dispatch(&self, path: &ResourcePath, request: &Request, me: &ResourcePath) -> (r: Option<
        Response,
    >)
        requires
            self.inv(),
            path.wf(),
            me.wf(),
        ensures
            response_matches(r, self.route(path@, request.method, me@)),
    ;
}

/// An envelope taking part in dispatch.
pub struct ODataResource<T: Serialize + ResourceMetadata + Dispatch>(pub Resource<T>);

impl<T: Serialize + ResourceMetadata + Dispatch> ODataResource<T> {
    /// The decision the envelope itself makes at an exact match, as a
    /// model: under a read, the envelope serialized at its absolute
    /// address `abs`; under any other method, the allowed methods.
    pub open spec fn exact_match_model(&self, abs: Seq<char>, method: Method) -> ResponseModel {
        if method == Method::Get {
            ResponseModel {
                status: 200,
                headers: Seq::empty(),
                body: envelope_json(abs, self.0.resource.type_tag(), self.0.resource.fields(abs)),
            }
        } else {
            method_not_allowed_model(seq![Method::Get])
        }
    }

    /// The three-way decision of the envelope, given its absolute
    /// address `abs`: serve an exact match of its stored path, delegate
    /// a strict prefix match to the payload with the matched prefix
    /// stripped, decline anything unrelated.
    pub open spec fn route(&self, path: Seq<char>, method: Method, abs: Seq<char>) -> Option<
        ResponseModel,
    > {
        if path == self.0.odata_id@ {
            Some(self.exact_match_model(abs, method))
        } else if path_starts_with(path, self.0.odata_id@) {
            self.0.resource.route(strip_path_prefix(path, self.0.odata_id@), method, abs)
        } else {
            None
        }
    }

    /// Answers exactly as [`Self::route`] decides.  `path` is the
    /// request path relative to the envelope's mount (the full request
    /// path at the root); `abs` is the envelope's absolute address,
    /// the mount joined with its stored path.
    pub fn dispatch(&self, path: &ResourcePath, request: &Request, abs: &ResourcePath) -> (r:
        Option<Response>)
        requires
            self.0.wf(),
            path.wf(),
            abs.wf(),
        ensures
            response_matches(r, self.route(path@, request.method, abs@)),
    {
        let this_url = self.0.get_id();
        if path.equals(this_url) {
            match request.method {
                Method::Get => {
                    let resp = Response {
                        status: 200,
                        headers: Vec::new(),
                        body: self.0.to_json_at(abs),
                    };
                    proof {
                        assert(resp@ =~= self.exact_match_model(abs@, Method::Get));
                    }
                    Some(resp)
                },
                _ => {
                    let mut allowed: Vec<Method> = Vec::new();
                    allowed.push(Method::Get);
                    proof {
                        assert(allowed@ =~= seq![Method::Get]);
                    }
                    Some(MethodNotAllowed::new(allowed).into_response())
                },
            }
        } else if path.starts_with(this_url) {
            let remainder = path.strip_prefix(this_url);
            self.0.resource.dispatch(&remainder, request, abs)
        } else {
            None
        }
    }

    /// The serialization of the wrapped envelope, unchanged.
    pub fn to_json(&self) -> (r: String)
        requires
            self.0.wf(),
        ensures
            r@ == envelope_json(
                self.0.odata_id@,
                self.0.resource.type_tag(),
                self.0.resource.fields(self.0.odata_id@),
            ),
    {
        self.0.to_json()
    }
}

impl<T: Serialize + ResourceMetadata + Dispatch> ResourceMetadata for ODataResource<T> {
    open spec fn type_tag(&self) -> Seq<char> {
        self.0.resource.type_tag()
    }

    open spec fn inv(&self) -> bool {
        self.0.wf()
    }

    fn type_tag_str(&self) -> (r: String) {
        self.0.resource.type_tag_str()
    }
}

impl<T: Serialize + ResourceMetadata + Dispatch> ServiceEndpoint for ODataResource<T> {
    open spec fn id_spec(&self) -> Seq<char> {
        self.0.odata_id@
    }

    fn get_id(&self) -> (r: &ResourcePath) {
        self.0.get_id()
    }
}

/// The service adapter: holds the root envelope read-only and turns
/// each dispatch outcome into a response, answering not-found where no
/// envelope claims the path.
pub struct ResourceService<T: Serialize + ResourceMetadata + Dispatch> {
    root: ODataResource<T>,
}

impl<T: Serialize + ResourceMetadata + Dispatch> ResourceService<T> {
    pub closed spec fn root_spec(&self) -> ODataResource<T> {
        self.root
    }

    pub open spec fn wf(&self) -> bool {
        self.root_spec().inv()
    }

    pub fn new(root: ODataResource<T>) -> (r: Self)
        ensures
            r.root_spec() == root,
    {
        ResourceService { root }
    }

    /// Serves one request: dispatches its path on the root envelope —
    /// whose stored path is the mount point, so also its absolute
    /// address — and answers not-found where no envelope claims it.
    /// Serving reads the tree and never changes it.
    pub fn handle(&self, request: &Request) -> (r: Response)
        requires
            self.wf(),
            request.path.wf(),
        ensures
            r@ == (match self.root_spec().route(
                request.path@,
                request.method,
                self.root_spec().0.odata_id@,
            ) {
                Some(model) => model,
                None => not_found_model(),
            }),
    {
        let root_path = self.root.0.get_id();
        match self.root.dispatch(&request.path, request, root_path) {
            Some(response) => response,
            None => NotFound.into_response(),
        }
    }
}

/// Dispatch exactness at an envelope's own path: a read is always
/// served with the envelope's serialization — identity and embedded
/// links resolved to the absolute address `abs` the envelope is served
/// at — under status 200, and any other method is always served with
/// status 405 carrying the allowed methods.
pub proof fn lemma_dispatch_exact<T: Serialize + ResourceMetadata + Dispatch>(
    r: ODataResource<T>,
    method: Method,
    abs: Seq<char>,
)
    ensures
        r.route(r.0.odata_id@, Method::Get, abs) == Some(
            ResponseModel {
                status: 200,
                headers: Seq::<(Seq<char>, Seq<char>)>::empty(),
                body: envelope_json(abs, r.0.resource.type_tag(), r.0.resource.fields(abs)),
            },
        ),
        method != Method::Get ==> r.route(r.0.odata_id@, method, abs) == Some(
            method_not_allowed_model(seq![Method::Get]),
        ),
{
}

/// Recursive resolution descends: at a strict prefix match the
/// envelope hands the decision to its payload, and the remainder it
/// hands over is again normalized and strictly shorter than the path
/// it received.  Each level of the tree therefore works on a shorter
/// path than the one above it.
pub proof fn lemma_dispatch_descends<T: Serialize + ResourceMetadata + Dispatch>(
    r: ODataResource<T>,
    path: Seq<char>,
    method: Method,
    abs: Seq<char>,
)
    requires
        crate::path::wf_path(path),
        crate::path::wf_path(r.0.odata_id@),
        path != r.0.odata_id@,
        path_starts_with(path, r.0.odata_id@),
    ensures
        r.route(path, method, abs) == r.0.resource.route(
            strip_path_prefix(path, r.0.odata_id@),
            method,
            abs,
        ),
        crate::path::wf_path(strip_path_prefix(path, r.0.odata_id@)),
        strip_path_prefix(path, r.0.odata_id@).len() < path.len(),
{
    crate::path::lemma_strip_path_prefix_wf(path, r.0.odata_id@);
}

} // verus!
