use crate::models::user_model::{
    is_object_id_hex, object_id_bytes, users_view, User, UserId, UserView,
};
use crate::repository::mongodb_repo::{
    failure, MongoRepo, RepoError, RepoErrorView, StoreCommand, StoreCommandView, StoreReply,
    StoreReplyView,
};
use vstd::prelude::*;

verus! {

/// What a response carries.
#[derive(Debug, Clone, PartialEq, Eq)]
pub enum Body {
    /// Plain text.
    Text(String),
    /// A JSON string.
    JsonText(String),
    /// One user, as a JSON object.
    JsonUser(User),
    /// Users, as a JSON array.
    JsonUsers(Vec<User>),
}

/// An HTTP response: the status code and the body.
#[derive(Debug, Clone, PartialEq, Eq)]
pub struct HttpResponse {
    pub status: u16,
    pub body: Body,
}

/// What a handler waits for while the store works.
#[derive(Debug, Clone, PartialEq, Eq)]
pub enum Pending {
    /// The insertion of `new_user`.
    CreateUser { new_user: User },
    /// The lookup of a user.
    GetUser,
    /// The update of the user `id`, who is fetched again once it went through.
    UpdateUser { id: UserId },
    /// The deletion of a user.
    DeleteUser,
    /// The opening of the cursor over all users.
    OpenCursor,
    /// The next user from the cursor; `users` are those it gave so far.
    DrainCursor { users: Vec<User> },
}

/// What a handler wants done next.
#[derive(Debug, Clone, PartialEq, Eq)]
pub enum Step {
    /// Send the response: the request is served.
    Respond(HttpResponse),
    /// Run the command on the store, then call [`resume`] with the `Pending`
    /// value and the store's reply.
    Call(StoreCommand, Pending),
}

pub enum BodyView {
    Text(Seq<char>),
    JsonText(Seq<char>),
    JsonUser(UserView),
    JsonUsers(Seq<UserView>),
}

pub struct HttpResponseView {
    pub status: u16,
    pub body: BodyView,
}

pub enum PendingView {
    CreateUser { new_user: UserView },
    GetUser,
    UpdateUser { id: Seq<u8> },
    DeleteUser,
    OpenCursor,
    DrainCursor { users: Seq<UserView> },
}

pub enum StepView {
    Respond(HttpResponseView),
    Call(StoreCommandView, PendingView),
}

impl View for Body {
    type V = BodyView;

    open spec fn view(&self) -> BodyView {
        match *self {
            Body::Text(text) => BodyView::Text(text@),
            Body::JsonText(text) => BodyView::JsonText(text@),
            Body::JsonUser(user) => BodyView::JsonUser(user@),
            Body::JsonUsers(users) => BodyView::JsonUsers(users_view(users@)),
        }
    }
}

impl View for HttpResponse {
    type V = HttpResponseView;

    open spec fn view(&self) -> HttpResponseView {
        HttpResponseView { status: self.status, body: self.body@ }
    }
}

impl View for Pending {
    type V = PendingView;

    open spec fn view(&self) -> PendingView {
        match *self {
            Pending::CreateUser { new_user } => PendingView::CreateUser { new_user: new_user@ },
            Pending::GetUser => PendingView::GetUser,
            Pending::UpdateUser { id } => PendingView::UpdateUser { id: id@ },
            Pending::DeleteUser => PendingView::DeleteUser,
            Pending::OpenCursor => PendingView::OpenCursor,
            Pending::DrainCursor { users } => PendingView::DrainCursor {
                users: users_view(users@),
            },
        }
    }
}

impl View for Step {
    type V = StepView;

    open spec fn view(&self) -> StepView {
        match *self {
            Step::Respond(response) => StepView::Respond(response@),
            Step::Call(command, pending) => StepView::Call(command@, pending@),
        }
    }
}

/// 200 with the user as JSON.
pub open spec fn ok_user(user: UserView) -> HttpResponseView {
    HttpResponseView { status: 200, body: BodyView::JsonUser(user) }
}

/// 200 with the users as a JSON array.
pub open spec fn ok_users(users: Seq<UserView>) -> HttpResponseView {
    HttpResponseView { status: 200, body: BodyView::JsonUsers(users) }
}

/// 200 with the confirmation of a deletion, a JSON string.
pub open spec fn ok_deleted() -> HttpResponseView {
    HttpResponseView { status: 200, body: BodyView::JsonText("User successfully deleted!"@) }
}

/// 400: the identifier in the path is empty or malformed.
pub open spec fn bad_request() -> HttpResponseView {
    HttpResponseView { status: 400, body: BodyView::Text("invalid ID"@) }
}

/// 404 of an update that matched no user.
pub open spec fn not_updated() -> HttpResponseView {
    HttpResponseView { status: 404, body: BodyView::Text("No user found with specified ID"@) }
}

/// 404 of a deletion that removed no user, a JSON string.
pub open spec fn not_deleted() -> HttpResponseView {
    HttpResponseView {
        status: 404,
        body: BodyView::JsonText("User with specified ID not found!"@),
    }
}

/// The response to a repository error: 400 where the identifier was
/// malformed, else 500 with the text of the error.
pub open spec fn error_response(e: RepoErrorView) -> HttpResponseView {
    if e is InvalidId {
        bad_request()
    } else {
        HttpResponseView { status: 500, body: BodyView::Text(e.message()) }
    }
}

impl HttpResponse {
    fn ok_user(user: User) -> (r: HttpResponse)
        ensures
            r@ == ok_user(user@),
    {
        HttpResponse { status: 200, body: Body::JsonUser(user) }
    }

    fn ok_users(users: Vec<User>) -> (r: HttpResponse)
        ensures
            r@ == ok_users(users_view(users@)),
    {
        HttpResponse { status: 200, body: Body::JsonUsers(users) }
    }

    fn ok_deleted() -> (r: HttpResponse)
        ensures
            r@ == ok_deleted(),
    {
        HttpResponse { status: 200, body: Body::JsonText("User successfully deleted!".to_owned()) }
    }

    fn bad_request() -> (r: HttpResponse)
        ensures
            r@ == bad_request(),
    {
        HttpResponse { status: 400, body: Body::Text("invalid ID".to_owned()) }
    }

    fn not_updated() -> (r: HttpResponse)
        ensures
            r@ == not_updated(),
    {
        HttpResponse {
            status: 404,
            body: Body::Text("No user found with specified ID".to_owned()),
        }
    }

    fn not_deleted() -> (r: HttpResponse)
        ensures
            r@ == not_deleted(),
    {
        HttpResponse {
            status: 404,
            body: Body::JsonText("User with specified ID not found!".to_owned()),
        }
    }

    fn error(e: RepoError) -> (r: HttpResponse)
        ensures
            r@ == error_response(e@),
    {
        match e {
            RepoError::InvalidId => HttpResponse::bad_request(),
            other => HttpResponse { status: 500, body: Body::Text(other.message()) },
        }
    }
}

/// What `POST /user` does with the body `new_user`: insert it without an
/// identifier, and keep it to answer with.
pub open spec fn create_user_step(new_user: UserView) -> StepView {
    StepView::Call(
        StoreCommandView::InsertOne { document: new_user.with_id(None) },
        PendingView::CreateUser { new_user: new_user.with_id(None) },
    )
}

/// What `GET /user/{id}` does with the path segment `path`.
pub open spec fn get_user_step(path: Seq<char>) -> StepView {
    if is_object_id_hex(path) {
        StepView::Call(
            StoreCommandView::FindOne { id: object_id_bytes(path) },
            PendingView::GetUser,
        )
    } else {
        StepView::Respond(bad_request())
    }
}

/// What `PUT /user/{id}` does with the path segment `path` and the body
/// `new_user`: the fields of the body are set under the identifier of the
/// path, whatever identifier the body held.
pub open spec fn update_user_step(path: Seq<char>, new_user: UserView) -> StepView {
    if is_object_id_hex(path) {
        StepView::Call(
            StoreCommandView::UpdateOne {
                id: object_id_bytes(path),
                set: new_user.with_id(Some(object_id_bytes(path))),
            },
            PendingView::UpdateUser { id: object_id_bytes(path) },
        )
    } else {
        StepView::Respond(bad_request())
    }
}

/// What `DELETE /user/{id}` does with the path segment `path`.
pub open spec fn delete_user_step(path: Seq<char>) -> StepView {
    if is_object_id_hex(path) {
        StepView::Call(
            StoreCommandView::DeleteOne { id: object_id_bytes(path) },
            PendingView::DeleteUser,
        )
    } else {
        StepView::Respond(bad_request())
    }
}

/// What `GET /users` does.
pub open spec fn get_all_users_step() -> StepView {
    StepView::Call(StoreCommandView::Find, PendingView::OpenCursor)
}

/// What a handler that waited for `pending` does with the store's `reply`.
///
/// A reply that reports a failure of the store, or that does not answer the
/// command, ends the request with 500 and the text of the error.
pub open spec fn resume_step(pending: PendingView, reply: StoreReplyView) -> StepView {
    match (pending, reply) {
        (PendingView::CreateUser { new_user }, StoreReplyView::Inserted { inserted_id }) => {
            StepView::Respond(ok_user(new_user.with_id(Some(inserted_id))))
        },
        (PendingView::GetUser, StoreReplyView::Found(Some(user))) => StepView::Respond(
            ok_user(user),
        ),
        (PendingView::GetUser, StoreReplyView::Found(None)) => StepView::Respond(
            error_response(RepoErrorView::NotFound),
        ),
        (PendingView::UpdateUser { id }, StoreReplyView::Updated { matched_count }) => {
            if matched_count == 1 {
                StepView::Call(StoreCommandView::FindOne { id }, PendingView::GetUser)
            } else {
                StepView::Respond(not_updated())
            }
        },
        (PendingView::DeleteUser, StoreReplyView::Deleted { deleted_count }) => {
            if deleted_count == 1 {
                StepView::Respond(ok_deleted())
            } else {
                StepView::Respond(not_deleted())
            }
        },
        (PendingView::OpenCursor, StoreReplyView::CursorOpened) => StepView::Call(
            StoreCommandView::CursorNext,
            PendingView::DrainCursor { users: Seq::empty() },
        ),
        (PendingView::DrainCursor { users }, StoreReplyView::CursorItem(Some(user))) => {
            StepView::Call(
                StoreCommandView::CursorNext,
                PendingView::DrainCursor { users: users.push(user) },
            )
        },
        (PendingView::DrainCursor { users }, StoreReplyView::CursorItem(None)) => {
            StepView::Respond(ok_users(users))
        },
        _ => StepView::Respond(error_response(failure(reply))),
    }
}

/// `POST /user`: creates a user from the body of the request.
///
/// Nothing in the body is validated. The identifier in it, if any, is
/// ignored.
pub fn create_user(db: &MongoRepo, new_user: User) -> (step: Step)
    ensures
        step@ == create_user_step(new_user@),
{
    let data = new_user.with_id(None);
    let kept = new_user.with_id(None);
    Step::Call(db.create_user(data), Pending::CreateUser { new_user: kept })
}

/// `GET /user/{id}`: fetches the user whose identifier is written in `path`.
///
/// An empty or malformed `path` is answered with 400 at once.
pub fn get_user(db: &MongoRepo, path: String) -> (step: Step)
    ensures
        step@ == get_user_step(path@),
        path@.len() == 0 || !is_object_id_hex(path@) ==> step@ == StepView::Respond(
            bad_request(),
        ),
{
    let id = path;
    if id.as_str().is_empty() {
        return Step::Respond(HttpResponse::bad_request());
    }
    match db.get_user(&id) {
        Ok(command) => Step::Call(command, Pending::GetUser),
        Err(e) => Step::Respond(HttpResponse::error(e)),
    }
}

/// `PUT /user/{id}`: replaces name, location and title of the user whose
/// identifier is written in `path`.
///
/// An empty or malformed `path` is answered with 400 at once.
pub fn update_user(db: &MongoRepo, path: String, new_user: User) -> (step: Step)
    ensures
        step@ == update_user_step(path@, new_user@),
        path@.len() == 0 || !is_object_id_hex(path@) ==> step@ == StepView::Respond(
            bad_request(),
        ),
{
    let id = path;
    if id.as_str().is_empty() {
        return Step::Respond(HttpResponse::bad_request());
    }
    let user_id = match UserId::parse(id.as_str()) {
        Some(user_id) => user_id,
        None => {
            return Step::Respond(HttpResponse::bad_request());
        },
    };
    let data = new_user.with_id(Some(user_id));
    match db.update_user(&id, data) {
        Ok(command) => Step::Call(command, Pending::UpdateUser { id: user_id }),
        Err(e) => Step::Respond(HttpResponse::error(e)),
    }
}

/// `DELETE /user/{id}`: deletes the user whose identifier is written in
/// `path`.
///
/// An empty or malformed `path` is answered with 400 at once.
pub fn delete_user(db: &MongoRepo, path: String) -> (step: Step)
    ensures
        step@ == delete_user_step(path@),
        path@.len() == 0 || !is_object_id_hex(path@) ==> step@ == StepView::Respond(
            bad_request(),
        ),
{
    let id = path;
    if id.as_str().is_empty() {
        return Step::Respond(HttpResponse::bad_request());
    }
    match db.delete_user(&id) {
        Ok(command) => Step::Call(command, Pending::DeleteUser),
        Err(e) => Step::Respond(HttpResponse::error(e)),
    }
}

/// `GET /users`: lists all users, in the order the store gives them.
pub fn get_all_users(db: &MongoRepo) -> (step: Step)
    ensures
        step@ == get_all_users_step(),
{
    Step::Call(db.get_all_users(), Pending::OpenCursor)
}

/// Takes a handler up again where it waited for the store.
pub fn resume(db: &MongoRepo, pending: Pending, reply: StoreReply) -> (step: Step)
    ensures
        step@ == resume_step(pending@, reply@),
{
    match pending {
        Pending::CreateUser { new_user } => match db.create_user_reply(reply) {
            Ok(ack) => Step::Respond(
                HttpResponse::ok_user(new_user.with_id(Some(ack.inserted_id))),
            ),
            Err(e) => Step::Respond(HttpResponse::error(e)),
        },
        Pending::GetUser => match db.get_user_reply(reply) {
            Ok(user) => Step::Respond(HttpResponse::ok_user(user)),
            Err(e) => Step::Respond(HttpResponse::error(e)),
        },
        Pending::UpdateUser { id } => match db.update_user_reply(reply) {
            Ok(update) => {
                if update.matched_count == 1 {
                    Step::Call(StoreCommand::FindOne { id }, Pending::GetUser)
                } else {
                    Step::Respond(HttpResponse::not_updated())
                }
            },
            Err(e) => Step::Respond(HttpResponse::error(e)),
        },
        Pending::DeleteUser => match db.delete_user_reply(reply) {
            Ok(res) => {
                if res.deleted_count == 1 {
                    Step::Respond(HttpResponse::ok_deleted())
                } else {
                    Step::Respond(HttpResponse::not_deleted())
                }
            },
            Err(e) => Step::Respond(HttpResponse::error(e)),
        },
        Pending::OpenCursor => match db.get_all_users_reply(reply) {
            Ok(()) => {
                let users: Vec<User> = Vec::new();
                assert(users_view(users@) =~= Seq::empty());
                Step::Call(db.next_user(), Pending::DrainCursor { users })
            },
            Err(e) => Step::Respond(HttpResponse::error(e)),
        },
        Pending::DrainCursor { users } => match db.next_user_reply(reply) {
            Ok(Some(user)) => {
                let mut users = users;
                let ghost before = users@;
                users.push(user);
                assert(users_view(users@) =~= users_view(before).push(user@));
                Step::Call(db.next_user(), Pending::DrainCursor { users })
            },
            Ok(None) => Step::Respond(HttpResponse::ok_users(users)),
            Err(e) => Step::Respond(HttpResponse::error(e)),
        },
    }
}

} // verus!
