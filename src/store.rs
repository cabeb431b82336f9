use vstd::prelude::*;
use crate::auth::{AuthDecision, Claims, TokenRejected, decision_of, request_token};
use crate::service::{
    Author, Post, PostFields, Request, Response, StoreError, StoreOp, StoreRows, Step, plan_spec,
    respond_spec,
};

verus! {

/// The posts table: each stored post under its id.
pub type PostTable = Map<i32, Post>;

/// The row a post gets from the fields it was written with.
pub open spec fn post_row(id: i32, f: PostFields) -> Post {
    Post { id, author_id: f.author_id, title: f.title, body: f.body }
}

/// `v` lists every post of `t` once, in some order.
pub open spec fn lists(t: PostTable, v: Seq<Post>) -> bool {
    &&& v.len() == t.dom().len()
    &&& forall|i: int| 0 <= i < v.len() ==> t.contains_key(#[trigger] v[i].id) && t[v[i].id] == v[i]
    &&& forall|i: int, j: int| 0 <= i < j < v.len() ==> v[i].id != v[j].id
}

/// What the statement `op` does to the table `t` and what it hands back, when
/// it succeeds. An insert gets the id `fresh`, which the store picks among
/// those not in use.
pub open spec fn store_step(t: PostTable, op: StoreOp, fresh: i32) -> (
    PostTable,
    Result<StoreRows, StoreError>,
) {
    match op {
        StoreOp::InsertAuthor(a) => (t, Ok(StoreRows::Author(Author { id: fresh, name: a.name }))),
        StoreOp::SelectPosts => (t, Ok(StoreRows::Posts(choose|v: Vec<Post>| lists(t, v@)))),
        StoreOp::InsertPost(f) => (
            t.insert(fresh, post_row(fresh, f)),
            Ok(StoreRows::Post(post_row(fresh, f))),
        ),
        StoreOp::SelectPost(id) => if t.contains_key(id) {
            (t, Ok(StoreRows::Post(t[id])))
        } else {
            (t, Err(StoreError::NotFound))
        },
        StoreOp::UpdatePost(id, f) => if t.contains_key(id) {
            (t.insert(id, post_row(id, f)), Ok(StoreRows::Post(post_row(id, f))))
        } else {
            (t, Err(StoreError::NotFound))
        },
        StoreOp::DeletePost(id) => if t.contains_key(id) {
            (t.remove(id), Ok(StoreRows::Deleted(1)))
        } else {
            (t, Ok(StoreRows::Deleted(0)))
        },
    }
}

/// The authentication decision on a request whose `Authorization` header is `header`,
/// where `outcome` is the validator's answer on its token, if it has one.
pub open spec fn gate_spec(
    header: Option<Seq<char>>,
    outcome: Result<Claims, TokenRejected>,
) -> AuthDecision {
    match request_token(header) {
        Some(_) => decision_of(outcome),
        None => AuthDecision::Unauthenticated,
    }
}

/// One request served end to end against a store that behaves as
/// `store_step` says: the table afterwards and the response.
pub open spec fn serve(t: PostTable, req: Request, decision: AuthDecision, fresh: i32) -> (
    PostTable,
    Response,
) {
    match plan_spec(req, decision) {
        Step::Respond(r) => (t, r),
        Step::Query(op, _) => {
            let (t2, outcome) = store_step(t, op, fresh);
            (t2, respond_spec(op, outcome))
        },
    }
}

} // verus!
