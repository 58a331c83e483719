//! From a request to the call of the signing backend, and back.

use vstd::prelude::*;
use crate::route::{entry_of, is_segment, lemma_route_of_path, resolve, EntryPoint, Route, METHOD};
use crate::scope::{Prefix, Scope, ScopeView, TabularId};
use crate::service::{Service, SigningError};

verus! {

/// Why a signing request came to nothing.
#[derive(Debug, Clone, PartialEq, Eq, Hash)]
pub enum DispatchError {
    /// A path variable does not have the form it must have.
    Path,
    /// The body of the request is no signing payload.
    Body,
    /// The signing backend failed; its failure is passed on as it came.
    Backend(SigningError),
}

/// Everything a signing backend is called with.
#[derive(Debug)]
pub struct SignCall<R, S, M> {
    pub scope: Scope,
    pub request: R,
    pub state: S,
    pub metadata: M,
}

/// The scope that the path variables of a route stand for, or `None` where
/// the tabular identifier is none.
pub open spec fn scope_of(route: Route) -> Option<ScopeView> {
    match route {
        Route::Unscoped => Some(ScopeView::Unscoped),
        Route::PrefixScoped { prefix } => Some(ScopeView::Warehouse { prefix }),
        Route::ResourceScoped { prefix, tabular_id } => match TabularId::of_text(tabular_id) {
            Some(id) => Some(ScopeView::Tabular { prefix, tabular_id: id }),
            None => None,
        },
    }
}

/// The reason for which a request is turned away before any backend sees
/// it, if there is one. The path is judged before the body.
pub open spec fn rejection(route: Route, body_parsed: bool) -> Option<DispatchError> {
    if scope_of(route) is None {
        Some(DispatchError::Path)
    } else if !body_parsed {
        Some(DispatchError::Body)
    } else {
        None
    }
}

/// What the caller gets for an outcome of the backend.
pub open spec fn relayed<T>(outcome: Result<T, SigningError>) -> Result<T, DispatchError> {
    match outcome {
        Ok(response) => Ok(response),
        Err(failure) => Err(DispatchError::Backend(failure)),
    }
}

/// The scope of a request to the resource-scoped entry point, given what its
/// tabular identifier was read as.
pub fn resource_scope(prefix: String, tabular_id: Option<TabularId>) -> (r: Result<
    Scope,
    DispatchError,
>)
    ensures
        match tabular_id {
            Some(id) => r matches Ok(scope) && scope@ == (ScopeView::Tabular {
                prefix: prefix@,
                tabular_id: id,
            }),
            None => r == Err::<Scope, DispatchError>(DispatchError::Path),
        },
{
    match tabular_id {
        Some(id) => Ok(Scope::Tabular { prefix: Prefix(prefix), tabular_id: id }),
        None => Err(DispatchError::Path),
    }
}

/// Derives the scope of a request from the entry point it came in by.
pub fn scope(entry: EntryPoint) -> (r: Result<Scope, DispatchError>)
    ensures
        match scope_of(entry@) {
            Some(view) => r matches Ok(scope) && scope@ == view,
            None => r == Err::<Scope, DispatchError>(DispatchError::Path),
        },
{
    match entry {
        EntryPoint::Unscoped => Ok(Scope::Unscoped),
        EntryPoint::PrefixScoped { prefix } => Ok(Scope::Warehouse { prefix: Prefix(prefix) }),
        EntryPoint::ResourceScoped { prefix, tabular_id } => {
            let parsed: Option<TabularId> = TabularId::parse(tabular_id.as_str());
            resource_scope(prefix, parsed)
        },
    }
}

/// Brings a request into the one shape in which a backend is called.
///
/// `body` is the signing payload that the body of the request held, or
/// `None` where it held none.
pub fn normalize<R, S, M>(entry: EntryPoint, body: Option<R>, state: S, metadata: M) -> (r: Result<
    SignCall<R, S, M>,
    DispatchError,
>)
    ensures
        match rejection(entry@, body is Some) {
            Some(reason) => r == Err::<SignCall<R, S, M>, DispatchError>(reason),
            None => {
                &&& r matches Ok(call)
                &&& Some(call.scope@) == scope_of(entry@)
                &&& Some(call.request) == body
                &&& call.state == state
                &&& call.metadata == metadata
            },
        },
{
    let scope: Scope = match scope(entry) {
        Ok(scope) => scope,
        Err(reason) => {
            return Err(reason);
        },
    };
    match body {
        Some(request) => Ok(SignCall { scope, request, state, metadata }),
        None => Err(DispatchError::Body),
    }
}

/// Hands the outcome of a backend to the caller: a response as it is, a
/// failure as the backend's failure.
pub fn relay<T>(outcome: Result<T, SigningError>) -> (r: Result<T, DispatchError>)
    ensures
        r == relayed(outcome),
{
    match outcome {
        Ok(response) => Ok(response),
        Err(failure) => Err(DispatchError::Backend(failure)),
    }
}

/// The reply is what the caller gets for an outcome that the backend `I`
/// gives when it is called with these five values.
pub open spec fn signed_with<I: Service<S>, S>(
    prefix: Option<Seq<char>>,
    tabular_id: Option<TabularId>,
    request: I::Request,
    state: S,
    metadata: I::Metadata,
    reply: Result<I::Response, DispatchError>,
) -> bool {
    exists|outcome: Result<I::Response, SigningError>|
        {
            &&& #[trigger] I::admits(prefix, tabular_id, request, state, metadata, outcome)
            &&& reply == relayed(outcome)
        }
}

/// What holds of the reply to a request that came in by `route`.
///
/// Either the request is turned away for its path or its body, or the
/// backend `I` is called with the scope of the route, the payload, the
/// context and the metadata, and its outcome is relayed.
pub open spec fn handled<I: Service<S>, S>(
    route: Route,
    body: Option<I::Request>,
    state: S,
    metadata: I::Metadata,
    reply: Result<I::Response, DispatchError>,
) -> bool {
    match rejection(route, body is Some) {
        Some(reason) => reply == Err::<I::Response, DispatchError>(reason),
        None => signed_with::<I, S>(
            scope_of(route)->0.prefix(),
            scope_of(route)->0.tabular_id(),
            body->0,
            state,
            metadata,
            reply,
        ),
    }
}

/// Serves a request that came in by `entry` with the backend `I`.
pub fn handle<I: Service<S>, S>(
    entry: EntryPoint,
    body: Option<I::Request>,
    state: S,
    metadata: I::Metadata,
) -> (reply: Result<I::Response, DispatchError>)
    ensures
        handled::<I, S>(entry@, body, state, metadata, reply),
{
    let call: SignCall<I::Request, S, I::Metadata> = match normalize(
        entry,
        body,
        state,
        metadata,
    ) {
        Ok(call) => call,
        Err(reason) => {
            return Err(reason);
        },
    };
    let (prefix, tabular_id) = call.scope.into_parts();
    let outcome = I::sign(prefix, tabular_id, call.request, call.state, call.metadata);
    assert(I::admits(
        scope_of(entry@)->0.prefix(),
        scope_of(entry@)->0.tabular_id(),
        body->0,
        state,
        metadata,
        outcome,
    ));
    relay(outcome)
}

/// What holds of the answer to a request: none where the request reaches no
/// entry point, else a reply as [`handled`] describes it.
pub open spec fn dispatched<I: Service<S>, S>(
    method: Seq<char>,
    path: Seq<char>,
    body: Option<I::Request>,
    state: S,
    metadata: I::Metadata,
    answer: Option<Result<I::Response, DispatchError>>,
) -> bool {
    match entry_of(method, path) {
        Some(route) => answer matches Some(reply) && handled::<I, S>(
            route,
            body,
            state,
            metadata,
            reply,
        ),
        None => answer is None,
    }
}

/// Serves a request with the backend `I`. Returns `None` where the request
/// reaches no entry point.
pub fn dispatch<I: Service<S>, S>(
    method: &str,
    path: &str,
    body: Option<I::Request>,
    state: S,
    metadata: I::Metadata,
) -> (answer: Option<Result<I::Response, DispatchError>>)
    ensures
        dispatched::<I, S>(method@, path@, body, state, metadata, answer),
{
    match resolve(method, path) {
        Some(entry) => Some(handle::<I, S>(entry, body, state, metadata)),
        None => None,
    }
}

/// A request to the unscoped entry point reaches the backend with neither
/// prefix nor tabular identifier.
pub proof fn lemma_unscoped_request<I: Service<S>, S>(
    request: I::Request,
    state: S,
    metadata: I::Metadata,
    answer: Option<Result<I::Response, DispatchError>>,
)
    requires
        dispatched::<I, S>(
            METHOD@,
            Route::Unscoped.path(),
            Some(request),
            state,
            metadata,
            answer,
        ),
    ensures
        answer matches Some(reply) && signed_with::<I, S>(
            None,
            None,
            request,
            state,
            metadata,
            reply,
        ),
{
    lemma_route_of_path(Route::Unscoped);
}

/// A request to the prefix-scoped entry point reaches the backend with the
/// prefix of its path and no tabular identifier.
pub proof fn lemma_prefix_scoped_request<I: Service<S>, S>(
    prefix: Seq<char>,
    request: I::Request,
    state: S,
    metadata: I::Metadata,
    answer: Option<Result<I::Response, DispatchError>>,
)
    requires
        is_segment(prefix),
        dispatched::<I, S>(
            METHOD@,
            (Route::PrefixScoped { prefix }).path(),
            Some(request),
            state,
            metadata,
            answer,
        ),
    ensures
        answer matches Some(reply) && signed_with::<I, S>(
            Some(prefix),
            None,
            request,
            state,
            metadata,
            reply,
        ),
{
    lemma_route_of_path(Route::PrefixScoped { prefix });
}

/// A request to the resource-scoped entry point reaches the backend with
/// the prefix of its path and the identifier that the tabular identifier of
/// its path stands for.
pub proof fn lemma_resource_scoped_request<I: Service<S>, S>(
    prefix: Seq<char>,
    tabular_id: Seq<char>,
    id: TabularId,
    request: I::Request,
    state: S,
    metadata: I::Metadata,
    answer: Option<Result<I::Response, DispatchError>>,
)
    requires
        is_segment(prefix),
        is_segment(tabular_id),
        TabularId::of_text(tabular_id) == Some(id),
        dispatched::<I, S>(
            METHOD@,
            (Route::ResourceScoped { prefix, tabular_id }).path(),
            Some(request),
            state,
            metadata,
            answer,
        ),
    ensures
        answer matches Some(reply) && signed_with::<I, S>(
            Some(prefix),
            Some(id),
            request,
            state,
            metadata,
            reply,
        ),
{
    lemma_route_of_path(Route::ResourceScoped { prefix, tabular_id });
}

/// A request to the resource-scoped entry point whose tabular identifier
/// stands for none is turned away for its path, whatever its body holds and
/// whatever the backend would do.
pub proof fn lemma_invalid_tabular_id_rejected<I: Service<S>, S>(
    prefix: Seq<char>,
    tabular_id: Seq<char>,
    body: Option<I::Request>,
    state: S,
    metadata: I::Metadata,
    answer: Option<Result<I::Response, DispatchError>>,
)
    requires
        is_segment(prefix),
        is_segment(tabular_id),
        TabularId::of_text(tabular_id) is None,
        dispatched::<I, S>(
            METHOD@,
            (Route::ResourceScoped { prefix, tabular_id }).path(),
            body,
            state,
            metadata,
            answer,
        ),
    ensures
        answer == Some(Err::<I::Response, DispatchError>(DispatchError::Path)),
{
    lemma_route_of_path(Route::ResourceScoped { prefix, tabular_id });
}

/// A request whose body holds no signing payload is turned away, by
/// whichever entry point it came in and whatever the backend would do: for
/// its path where that is at fault too, else for its body.
pub proof fn lemma_unparsed_body_rejected<I: Service<S>, S>(
    route: Route,
    state: S,
    metadata: I::Metadata,
    answer: Option<Result<I::Response, DispatchError>>,
)
    requires
        route.well_formed(),
        dispatched::<I, S>(METHOD@, route.path(), None, state, metadata, answer),
    ensures
        answer == Some(
            Err::<I::Response, DispatchError>(
                if scope_of(route) is None {
                    DispatchError::Path
                } else {
                    DispatchError::Body
                },
            ),
        ),
{
    lemma_route_of_path(route);
}

/// A request by another method than that of signing requests reaches no
/// entry point, whatever its path.
pub proof fn lemma_other_method_not_served<I: Service<S>, S>(
    method: Seq<char>,
    path: Seq<char>,
    body: Option<I::Request>,
    state: S,
    metadata: I::Metadata,
    answer: Option<Result<I::Response, DispatchError>>,
)
    requires
        method != METHOD@,
        dispatched::<I, S>(method, path, body, state, metadata, answer),
    ensures
        answer is None,
{
}

} // verus!
