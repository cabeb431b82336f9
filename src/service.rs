use vstd::prelude::*;
use crate::auth::AuthDecision;

verus! {

/// Body of `GET /`.
pub const GREETING: &'static str = "Hello, World!";

/// Message of the confirmation payload that a successful delete returns.
pub const DELETE_CONFIRMATION: &'static str = "Post deleted successfully";

/// Fields a client gives when creating or replacing a post.
#[derive(Clone, Debug, PartialEq, Eq)]
pub struct PostFields {
    pub title: String,
    pub body: String,
    pub author_id: Option<i32>,
}

/// A stored post, with the id the store assigned to it.
#[derive(Clone, Debug, PartialEq, Eq)]
pub struct Post {
    pub id: i32,
    pub author_id: Option<i32>,
    pub title: String,
    pub body: String,
}

/// Fields a client gives when creating an author.
#[derive(Clone, Debug, PartialEq, Eq)]
pub struct NewAuthor {
    pub name: String,
}

/// A stored author, with the id the store assigned to it.
#[derive(Clone, Debug, PartialEq, Eq)]
pub struct Author {
    pub id: i32,
    pub name: String,
}

/// A request, once the transport has routed it and decoded its body.
#[derive(Clone, Debug, PartialEq, Eq)]
pub enum Request {
    Root,
    CreateAuthor(NewAuthor),
    ListPosts,
    CreatePost(PostFields),
    GetPost(i32),
    UpdatePost(i32, PostFields),
    DeletePost(i32),
}

/// The one store statement that a request runs.
#[derive(Clone, Debug, PartialEq, Eq)]
pub enum StoreOp {
    InsertAuthor(NewAuthor),
    SelectPosts,
    InsertPost(PostFields),
    SelectPost(i32),
    UpdatePost(i32, PostFields),
    DeletePost(i32),
}

/// What a store statement handed back.
#[derive(Clone, Debug, PartialEq, Eq)]
pub enum StoreRows {
    Posts(Vec<Post>),
    Post(Post),
    Author(Author),
    /// Number of rows a delete removed.
    Deleted(u64),
}

/// How a store statement failed.
#[derive(Clone, Copy, Debug, PartialEq, Eq)]
pub enum StoreError {
    /// The statement matched no row.
    NotFound,
    /// Constraint violation, lost connection or any other failure.
    Failure,
}

/// Status of a response.
#[derive(Clone, Copy, Debug, PartialEq, Eq)]
pub enum Status {
    Success,
    Unauthorized,
    NotFound,
    InternalError,
}

impl Status {
    pub open spec fn code_spec(self) -> u16 {
        match self {
            Status::Success => 200,
            Status::Unauthorized => 401,
            Status::NotFound => 404,
            Status::InternalError => 500,
        }
    }

    /// The HTTP status code.
    pub fn code(self) -> (r: u16)
        ensures
            r == self.code_spec(),
    {
        match self {
            Status::Success => 200,
            Status::Unauthorized => 401,
            Status::NotFound => 404,
            Status::InternalError => 500,
        }
    }
}

/// What the service answers to a request.
#[derive(Clone, Debug, PartialEq, Eq)]
pub enum Response {
    /// The plain-text `GREETING`.
    Greeting,
    Posts(Vec<Post>),
    Post(Post),
    Author(Author),
    /// The payload `{"message": DELETE_CONFIRMATION}`.
    Deleted,
    Failed(Status),
}

impl Response {
    pub open spec fn status_spec(&self) -> Status {
        match self {
            Response::Failed(s) => *s,
            _ => Status::Success,
        }
    }

    /// The status the response is sent with.
    pub fn status(&self) -> (r: Status)
        ensures
            r == self.status_spec(),
    {
        match self {
            Response::Failed(s) => *s,
            _ => Status::Success,
        }
    }
}

/// What to do next with a request.
#[derive(Clone, Debug, PartialEq, Eq)]
pub enum Step {
    /// Answer at once, without touching the store.
    Respond(Response),
    /// Run the statement on the store, on behalf of the given subject.
    Query(StoreOp, String),
}

impl Request {
    /// Every route but the greeting is protected.
    pub open spec fn requires_auth_spec(&self) -> bool {
        !(self is Root)
    }

    /// Whether the route rejects callers that are not authenticated.
    pub fn requires_auth(&self) -> (r: bool)
        ensures
            r == self.requires_auth_spec(),
    {
        match self {
            Request::Root => false,
            _ => true,
        }
    }

    /// The statement a protected request runs.
    pub open spec fn op_spec(self) -> StoreOp
        recommends
            self.requires_auth_spec(),
    {
        match self {
            Request::Root => StoreOp::SelectPosts,
            Request::CreateAuthor(a) => StoreOp::InsertAuthor(a),
            Request::ListPosts => StoreOp::SelectPosts,
            Request::CreatePost(f) => StoreOp::InsertPost(f),
            Request::GetPost(id) => StoreOp::SelectPost(id),
            Request::UpdatePost(id, f) => StoreOp::UpdatePost(id, f),
            Request::DeletePost(id) => StoreOp::DeletePost(id),
        }
    }
}

/// The step a request leads to, given what authentication decided about its caller.
pub open spec fn plan_spec(req: Request, decision: AuthDecision) -> Step {
    if !req.requires_auth_spec() {
        Step::Respond(Response::Greeting)
    } else {
        match decision {
            AuthDecision::Authenticated(c) => Step::Query(req.op_spec(), c.sub),
            AuthDecision::Unauthenticated => Step::Respond(Response::Failed(Status::Unauthorized)),
        }
    }
}

/// Decides what to do with a request: answer at once, or run one statement.
pub fn plan(req: Request, decision: AuthDecision) -> (r: Step)
    ensures
        r == plan_spec(req, decision),
{
    let c = match req {
        Request::Root => {
            return Step::Respond(Response::Greeting);
        },
        _ => match decision {
            AuthDecision::Authenticated(c) => c,
            AuthDecision::Unauthenticated => {
                return Step::Respond(Response::Failed(Status::Unauthorized));
            },
        },
    };
    let op = match req {
        Request::Root => StoreOp::SelectPosts,
        Request::CreateAuthor(a) => StoreOp::InsertAuthor(a),
        Request::ListPosts => StoreOp::SelectPosts,
        Request::CreatePost(f) => StoreOp::InsertPost(f),
        Request::GetPost(id) => StoreOp::SelectPost(id),
        Request::UpdatePost(id, f) => StoreOp::UpdatePost(id, f),
        Request::DeletePost(id) => StoreOp::DeletePost(id),
    };
    Step::Query(op, c.sub)
}

impl StoreOp {
    /// The statement addresses one post by its id.
    pub open spec fn by_id_spec(&self) -> bool {
        self is SelectPost || self is UpdatePost || self is DeletePost
    }
}

/// The status a failed statement is answered with.
pub open spec fn failure_status(op: StoreOp, e: StoreError) -> Status {
    if e == StoreError::NotFound && op.by_id_spec() {
        Status::NotFound
    } else {
        Status::InternalError
    }
}

/// The response to a statement's outcome. Rows of a kind that the statement
/// cannot return count as a store failure.
pub open spec fn respond_spec(op: StoreOp, outcome: Result<StoreRows, StoreError>) -> Response {
    match outcome {
        Err(e) => Response::Failed(failure_status(op, e)),
        Ok(rows) => match (op, rows) {
            (StoreOp::SelectPosts, StoreRows::Posts(v)) => Response::Posts(v),
            (StoreOp::InsertPost(_), StoreRows::Post(p)) => Response::Post(p),
            (StoreOp::SelectPost(_), StoreRows::Post(p)) => Response::Post(p),
            (StoreOp::UpdatePost(_, _), StoreRows::Post(p)) => Response::Post(p),
            (StoreOp::InsertAuthor(_), StoreRows::Author(a)) => Response::Author(a),
            (StoreOp::DeletePost(_), StoreRows::Deleted(n)) => if n == 0 {
                Response::Failed(Status::NotFound)
            } else {
                Response::Deleted
            },
            _ => Response::Failed(Status::InternalError),
        },
    }
}

/// Maps the outcome of the statement `op` to the response sent to the client.
pub fn respond(op: &StoreOp, outcome: Result<StoreRows, StoreError>) -> (r: Response)
    ensures
        r == respond_spec(*op, outcome),
{
    match outcome {
        Err(e) => {
            let by_id = match op {
                StoreOp::SelectPost(_) | StoreOp::UpdatePost(_, _) | StoreOp::DeletePost(_) => true,
                _ => false,
            };
            let missing = match e {
                StoreError::NotFound => true,
                StoreError::Failure => false,
            };
            if missing && by_id {
                Response::Failed(Status::NotFound)
            } else {
                Response::Failed(Status::InternalError)
            }
        },
        Ok(rows) => match (op, rows) {
            (StoreOp::SelectPosts, StoreRows::Posts(v)) => Response::Posts(v),
            (StoreOp::InsertPost(_), StoreRows::Post(p)) => Response::Post(p),
            (StoreOp::SelectPost(_), StoreRows::Post(p)) => Response::Post(p),
            (StoreOp::UpdatePost(_, _), StoreRows::Post(p)) => Response::Post(p),
            (StoreOp::InsertAuthor(_), StoreRows::Author(a)) => Response::Author(a),
            (StoreOp::DeletePost(_), StoreRows::Deleted(n)) => if n == 0 {
                Response::Failed(Status::NotFound)
            } else {
                Response::Deleted
            },
            _ => Response::Failed(Status::InternalError),
        },
    }
}

} // verus!
