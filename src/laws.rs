use vstd::prelude::*;
use crate::auth::{AuthDecision, Claims, TokenRejected, request_token};
use crate::service::{PostFields, Request, Response, Status, StoreOp, Step, plan_spec};
use crate::store::{PostTable, gate_spec, post_row, serve};

verus! {

/// A request without a bearer token to a protected route is answered with
/// 401, its plan runs no statement, and the table is left as it was.
pub proof fn lemma_no_token_is_unauthorized(
    header: Option<Seq<char>>,
    outcome: Result<Claims, TokenRejected>,
    req: Request,
    t: PostTable,
    fresh: i32,
)
    requires
        request_token(header) is None,
        req.requires_auth_spec(),
    ensures
        gate_spec(header, outcome) == AuthDecision::Unauthenticated,
        plan_spec(req, gate_spec(header, outcome)) == Step::Respond(
            Response::Failed(Status::Unauthorized),
        ),
        serve(t, req, gate_spec(header, outcome), fresh) == (
            t,
            Response::Failed(Status::Unauthorized),
        ),
        Status::Unauthorized.code_spec() == 401,
{
}

/// A request whose token the validator refuses (bad signature, expired,
/// malformed, wrong algorithm or audience) is answered with 401 on a
/// protected route, and the table is left as it was.
pub proof fn lemma_rejected_token_is_unauthorized(
    header: Option<Seq<char>>,
    req: Request,
    t: PostTable,
    fresh: i32,
)
    requires
        request_token(header) is Some,
        req.requires_auth_spec(),
    ensures
        gate_spec(header, Err(TokenRejected)) == AuthDecision::Unauthenticated,
        serve(t, req, gate_spec(header, Err(TokenRejected)), fresh) == (
            t,
            Response::Failed(Status::Unauthorized),
        ),
{
}

/// When the validator accepts the token, the statement of a protected request
/// runs on behalf of exactly the subject of the verified claims.
pub proof fn lemma_accepted_token_passes_subject(
    header: Option<Seq<char>>,
    claims: Claims,
    req: Request,
)
    requires
        request_token(header) is Some,
        req.requires_auth_spec(),
    ensures
        gate_spec(header, Ok(claims)) == AuthDecision::Authenticated(claims),
        plan_spec(req, gate_spec(header, Ok(claims))) == Step::Query(req.op_spec(), claims.sub),
{
}

/// A created post carries the id the store assigned and the given title,
/// body and author; reading that id afterwards returns the same post.
pub proof fn lemma_create_then_get(
    t: PostTable,
    f: PostFields,
    fresh: i32,
    c1: Claims,
    c2: Claims,
    other: i32,
)
    requires
        !t.contains_key(fresh),
    ensures
        ({
            let (t1, r1) = serve(t, Request::CreatePost(f), AuthDecision::Authenticated(c1), fresh);
            let (t2, r2) = serve(
                t1,
                Request::GetPost(fresh),
                AuthDecision::Authenticated(c2),
                other,
            );
            &&& r1 == Response::Post(post_row(fresh, f))
            &&& r2 == r1
            &&& t2 == t1
        }),
{
}

/// Reading a post leaves the table as it was, so a second read of the same id
/// returns the same response as the first.
pub proof fn lemma_read_is_idempotent(
    t: PostTable,
    id: i32,
    c1: Claims,
    c2: Claims,
    fresh1: i32,
    fresh2: i32,
)
    ensures
        ({
            let (t1, r1) = serve(t, Request::GetPost(id), AuthDecision::Authenticated(c1), fresh1);
            let (t2, r2) = serve(t1, Request::GetPost(id), AuthDecision::Authenticated(c2), fresh2);
            &&& t1 == t
            &&& t2 == t
            &&& r2 == r1
        }),
{
}

/// Reading an id that holds no post is answered with 404.
pub proof fn lemma_get_missing_is_not_found(t: PostTable, id: i32, c: Claims, fresh: i32)
    requires
        !t.contains_key(id),
    ensures
        serve(t, Request::GetPost(id), AuthDecision::Authenticated(c), fresh) == (
            t,
            Response::Failed(Status::NotFound),
        ),
        Status::NotFound.code_spec() == 404,
{
}

/// Updating an id that holds no post is answered with 404 and creates no row.
pub proof fn lemma_update_missing_is_not_found(
    t: PostTable,
    id: i32,
    f: PostFields,
    c: Claims,
    fresh: i32,
)
    requires
        !t.contains_key(id),
    ensures
        serve(t, Request::UpdatePost(id, f), AuthDecision::Authenticated(c), fresh) == (
            t,
            Response::Failed(Status::NotFound),
        ),
{
}

/// Deleting a stored post is confirmed with 200, and reading its id
/// afterwards is answered with 404.
pub proof fn lemma_delete_then_get(
    t: PostTable,
    id: i32,
    c1: Claims,
    c2: Claims,
    fresh1: i32,
    fresh2: i32,
)
    requires
        t.contains_key(id),
    ensures
        ({
            let (t1, r1) = serve(t, Request::DeletePost(id), AuthDecision::Authenticated(c1), fresh1);
            let (t2, r2) = serve(t1, Request::GetPost(id), AuthDecision::Authenticated(c2), fresh2);
            &&& r1 == Response::Deleted
            &&& r1.status_spec().code_spec() == 200
            &&& t1 == t.remove(id)
            &&& !t1.contains_key(id)
            &&& r2 == Response::Failed(Status::NotFound)
            &&& t2 == t1
        }),
{
}

} // verus!
