use std::collections::BTreeMap;

use blog_api::auth::{AuthDecision, Claims};
use blog_api::service::{
    plan, respond, Author, NewAuthor, Post, PostFields, Request, Response, Status, Step,
    StoreError, StoreOp, StoreRows, DELETE_CONFIRMATION, GREETING,
};

/// A table of posts kept in memory, standing in for the database.
struct MemoryStore {
    posts: BTreeMap<i32, Post>,
    next_id: i32,
    statements: usize,
}

impl MemoryStore {
    fn new() -> MemoryStore {
        MemoryStore { posts: BTreeMap::new(), next_id: 1, statements: 0 }
    }

    fn run(&mut self, op: &StoreOp) -> Result<StoreRows, StoreError> {
        self.statements += 1;
        match op {
            StoreOp::InsertAuthor(a) => Ok(StoreRows::Author(Author { id: 1, name: a.name.clone() })),
            StoreOp::SelectPosts => Ok(StoreRows::Posts(self.posts.values().cloned().collect())),
            StoreOp::InsertPost(f) => {
                let id = self.next_id;
                self.next_id += 1;
                let p = Post { id, author_id: f.author_id, title: f.title.clone(), body: f.body.clone() };
                self.posts.insert(id, p.clone());
                Ok(StoreRows::Post(p))
            }
            StoreOp::SelectPost(id) => self.posts.get(id).cloned().map(StoreRows::Post).ok_or(StoreError::NotFound),
            StoreOp::UpdatePost(id, f) => match self.posts.get_mut(id) {
                Some(p) => {
                    p.title = f.title.clone();
                    p.body = f.body.clone();
                    p.author_id = f.author_id;
                    Ok(StoreRows::Post(p.clone()))
                }
                None => Err(StoreError::NotFound),
            },
            StoreOp::DeletePost(id) => Ok(StoreRows::Deleted(if self.posts.remove(id).is_some() { 1 } else { 0 })),
        }
    }

    fn serve(&mut self, req: Request, decision: AuthDecision) -> Response {
        match plan(req, decision) {
            Step::Respond(r) => r,
            Step::Query(op, _subject) => {
                let outcome = self.run(&op);
                respond(&op, outcome)
            }
        }
    }
}

fn user() -> AuthDecision {
    AuthDecision::Authenticated(Claims { sub: "alice".to_string(), email: None })
}

fn fields(title: &str, body: &str) -> PostFields {
    PostFields { title: title.to_string(), body: body.to_string(), author_id: None }
}

#[test]
fn create_then_get_round_trip() {
    let mut s = MemoryStore::new();
    let created = s.serve(Request::CreatePost(fields("T", "B")), user());
    let id = match &created {
        Response::Post(p) => {
            assert_eq!(p.title, "T");
            assert_eq!(p.body, "B");
            assert_eq!(p.author_id, None);
            p.id
        }
        other => panic!("unexpected {:?}", other),
    };
    assert_eq!(created.status().code(), 200);
    let read = s.serve(Request::GetPost(id), user());
    assert_eq!(read, created);
}

#[test]
fn repeated_reads_are_identical() {
    let mut s = MemoryStore::new();
    let created = s.serve(Request::CreatePost(fields("T", "B")), user());
    let id = match created {
        Response::Post(p) => p.id,
        other => panic!("unexpected {:?}", other),
    };
    let first = s.serve(Request::GetPost(id), user());
    let second = s.serve(Request::GetPost(id), user());
    assert_eq!(first, second);
}

#[test]
fn get_missing_post_is_404() {
    let mut s = MemoryStore::new();
    let r = s.serve(Request::GetPost(999999), user());
    assert_eq!(r, Response::Failed(Status::NotFound));
    assert_eq!(r.status().code(), 404);
}

#[test]
fn update_missing_post_is_404_and_creates_nothing() {
    let mut s = MemoryStore::new();
    let r = s.serve(Request::UpdatePost(5, fields("T", "B")), user());
    assert_eq!(r.status().code(), 404);
    assert!(s.posts.is_empty());
}

#[test]
fn update_existing_post() {
    let mut s = MemoryStore::new();
    s.serve(Request::CreatePost(fields("T", "B")), user());
    let r = s.serve(Request::UpdatePost(1, fields("T2", "B2")), user());
    assert_eq!(
        r,
        Response::Post(Post { id: 1, author_id: None, title: "T2".to_string(), body: "B2".to_string() })
    );
}

#[test]
fn delete_then_get_is_404() {
    let mut s = MemoryStore::new();
    s.serve(Request::CreatePost(fields("T", "B")), user());
    let r = s.serve(Request::DeletePost(1), user());
    assert_eq!(r, Response::Deleted);
    assert_eq!(r.status().code(), 200);
    assert_eq!(DELETE_CONFIRMATION, "Post deleted successfully");
    assert_eq!(s.serve(Request::GetPost(1), user()), Response::Failed(Status::NotFound));
}

#[test]
fn delete_missing_post_is_404() {
    assert_eq!(
        respond(&StoreOp::DeletePost(3), Ok(StoreRows::Deleted(0))),
        Response::Failed(Status::NotFound)
    );
}

#[test]
fn unauthenticated_request_runs_no_statement() {
    let mut s = MemoryStore::new();
    let r = s.serve(Request::CreatePost(fields("T", "B")), AuthDecision::Unauthenticated);
    assert_eq!(r.status().code(), 401);
    assert_eq!(s.statements, 0);
    assert!(s.posts.is_empty());
}

#[test]
fn list_posts_returns_rows() {
    let mut s = MemoryStore::new();
    s.serve(Request::CreatePost(fields("A", "a")), user());
    s.serve(Request::CreatePost(fields("B", "b")), user());
    match s.serve(Request::ListPosts, user()) {
        Response::Posts(v) => assert_eq!(v.len(), 2),
        other => panic!("unexpected {:?}", other),
    }
}

#[test]
fn create_author_returns_row() {
    let op = StoreOp::InsertAuthor(NewAuthor { name: "Ann".to_string() });
    let a = Author { id: 9, name: "Ann".to_string() };
    assert_eq!(respond(&op, Ok(StoreRows::Author(a.clone()))), Response::Author(a));
}

#[test]
fn store_failure_is_500() {
    assert_eq!(
        respond(&StoreOp::InsertPost(fields("T", "B")), Err(StoreError::Failure)),
        Response::Failed(Status::InternalError)
    );
    assert_eq!(
        respond(&StoreOp::SelectPost(1), Err(StoreError::Failure)),
        Response::Failed(Status::InternalError)
    );
    assert_eq!(Status::InternalError.code(), 500);
}

#[test]
fn not_found_on_insert_is_500() {
    assert_eq!(
        respond(&StoreOp::InsertAuthor(NewAuthor { name: "x".to_string() }), Err(StoreError::NotFound)),
        Response::Failed(Status::InternalError)
    );
}

#[test]
fn mismatched_rows_are_500() {
    assert_eq!(
        respond(&StoreOp::SelectPosts, Ok(StoreRows::Deleted(1))),
        Response::Failed(Status::InternalError)
    );
}

#[test]
fn greeting_text() {
    assert_eq!(GREETING, "Hello, World!");
    assert_eq!(Response::Greeting.status().code(), 200);
}
