use crate::models::user_model::{is_object_id_hex, object_id_bytes, User, UserId, UserView};
use vstd::prelude::*;

verus! {

/// What the store says of a record it has inserted.
#[derive(Debug, Clone, Copy, PartialEq, Eq)]
pub struct InsertOneResult {
    pub inserted_id: UserId,
}

/// What the store says of an update: how many records its filter matched.
#[derive(Debug, Clone, Copy, PartialEq, Eq)]
pub struct UpdateResult {
    pub matched_count: u64,
}

/// What the store says of a deletion: how many records it removed.
#[derive(Debug, Clone, Copy, PartialEq, Eq)]
pub struct DeleteResult {
    pub deleted_count: u64,
}

/// One round trip to the store. Each is a single operation on the one
/// collection; none needs another to be undone.
#[derive(Debug, Clone, PartialEq, Eq)]
pub enum StoreCommand {
    /// Insert `document`; the store assigns its identifier.
    InsertOne { document: User },
    /// Look up the record whose identifier is `id`.
    FindOne { id: UserId },
    /// In the record whose identifier is `id`, set the fields of `set`. The
    /// identifier in `set` is written to a field of its own; the record keeps
    /// the identifier it is found by.
    UpdateOne { id: UserId, set: User },
    /// Delete the record whose identifier is `id`, if there is one.
    DeleteOne { id: UserId },
    /// Open a cursor over every record of the collection.
    Find,
    /// Take the next record from the open cursor.
    CursorNext,
}

/// What came back from a round trip.
#[derive(Debug, Clone, PartialEq, Eq)]
pub enum StoreReply {
    Inserted(InsertOneResult),
    /// The record looked up, or `None` where no record matched.
    Found(Option<User>),
    Updated(UpdateResult),
    Deleted(DeleteResult),
    CursorOpened,
    /// The next record of the cursor, or `None` once it is exhausted.
    CursorItem(Option<User>),
    /// The store could not be reached; the text is the driver's.
    Unreachable(String),
    /// The store was reached and refused the operation; the text is the
    /// driver's.
    Rejected(String),
}

/// Why a repository operation failed.
#[derive(Debug, Clone, PartialEq, Eq)]
pub enum RepoError {
    /// The text is not an identifier.
    InvalidId,
    /// No record has the identifier.
    NotFound,
    /// The store could not be reached.
    Connection(String),
    /// The store refused the operation.
    Operation(String),
    /// The reply does not answer the command that was sent.
    MalformedReply,
}

pub enum StoreCommandView {
    InsertOne { document: UserView },
    FindOne { id: Seq<u8> },
    UpdateOne { id: Seq<u8>, set: UserView },
    DeleteOne { id: Seq<u8> },
    Find,
    CursorNext,
}

pub enum StoreReplyView {
    Inserted { inserted_id: Seq<u8> },
    Found(Option<UserView>),
    Updated { matched_count: u64 },
    Deleted { deleted_count: u64 },
    CursorOpened,
    CursorItem(Option<UserView>),
    Unreachable(Seq<char>),
    Rejected(Seq<char>),
}

pub enum RepoErrorView {
    InvalidId,
    NotFound,
    Connection(Seq<char>),
    Operation(Seq<char>),
    MalformedReply,
}

/// The view of an optional record.
pub open spec fn user_option_view(user: Option<User>) -> Option<UserView> {
    match user {
        Some(u) => Some(u@),
        None => None,
    }
}

impl View for StoreCommand {
    type V = StoreCommandView;

    open spec fn view(&self) -> StoreCommandView {
        match *self {
            StoreCommand::InsertOne { document } => StoreCommandView::InsertOne {
                document: document@,
            },
            StoreCommand::FindOne { id } => StoreCommandView::FindOne { id: id@ },
            StoreCommand::UpdateOne { id, set } => StoreCommandView::UpdateOne {
                id: id@,
                set: set@,
            },
            StoreCommand::DeleteOne { id } => StoreCommandView::DeleteOne { id: id@ },
            StoreCommand::Find => StoreCommandView::Find,
            StoreCommand::CursorNext => StoreCommandView::CursorNext,
        }
    }
}

impl View for StoreReply {
    type V = StoreReplyView;

    open spec fn view(&self) -> StoreReplyView {
        match *self {
            StoreReply::Inserted(ack) => StoreReplyView::Inserted {
                inserted_id: ack.inserted_id@,
            },
            StoreReply::Found(user) => StoreReplyView::Found(user_option_view(user)),
            StoreReply::Updated(ack) => StoreReplyView::Updated {
                matched_count: ack.matched_count,
            },
            StoreReply::Deleted(ack) => StoreReplyView::Deleted {
                deleted_count: ack.deleted_count,
            },
            StoreReply::CursorOpened => StoreReplyView::CursorOpened,
            StoreReply::CursorItem(user) => StoreReplyView::CursorItem(user_option_view(user)),
            StoreReply::Unreachable(text) => StoreReplyView::Unreachable(text@),
            StoreReply::Rejected(text) => StoreReplyView::Rejected(text@),
        }
    }
}

impl View for RepoError {
    type V = RepoErrorView;

    open spec fn view(&self) -> RepoErrorView {
        match *self {
            RepoError::InvalidId => RepoErrorView::InvalidId,
            RepoError::NotFound => RepoErrorView::NotFound,
            RepoError::Connection(text) => RepoErrorView::Connection(text@),
            RepoError::Operation(text) => RepoErrorView::Operation(text@),
            RepoError::MalformedReply => RepoErrorView::MalformedReply,
        }
    }
}

impl RepoErrorView {
    /// The text that describes the error: the driver's own words where the
    /// store failed, a fixed sentence otherwise.
    pub open spec fn message(self) -> Seq<char> {
        match self {
            RepoErrorView::InvalidId => "invalid ID"@,
            RepoErrorView::NotFound => "No user found with specified ID"@,
            RepoErrorView::Connection(text) => text,
            RepoErrorView::Operation(text) => text,
            RepoErrorView::MalformedReply => "malformed store response"@,
        }
    }
}

impl RepoError {
    /// The text that describes the error.
    pub fn message(&self) -> (text: String)
        ensures
            text@ == self@.message(),
    {
        match self {
            RepoError::InvalidId => "invalid ID".to_owned(),
            RepoError::NotFound => "No user found with specified ID".to_owned(),
            RepoError::Connection(text) => text.clone(),
            RepoError::Operation(text) => text.clone(),
            RepoError::MalformedReply => "malformed store response".to_owned(),
        }
    }
}

/// The error that a reply stands for when it is not the answer expected: the
/// store's own failure where it reports one, a malformed reply otherwise.
pub open spec fn failure(reply: StoreReplyView) -> RepoErrorView {
    match reply {
        StoreReplyView::Unreachable(text) => RepoErrorView::Connection(text),
        StoreReplyView::Rejected(text) => RepoErrorView::Operation(text),
        _ => RepoErrorView::MalformedReply,
    }
}

fn failure_of(reply: StoreReply) -> (e: RepoError)
    ensures
        e@ == failure(reply@),
{
    match reply {
        StoreReply::Unreachable(text) => RepoError::Connection(text),
        StoreReply::Rejected(text) => RepoError::Operation(text),
        _ => RepoError::MalformedReply,
    }
}

/// Where the collection of users lives: the connection string of the store,
/// the database and the collection in it.
#[derive(Debug, Clone, PartialEq, Eq)]
pub struct MongoRepo {
    pub uri: String,
    pub database: String,
    pub collection: String,
}

impl MongoRepo {
    /// The repository for the connection string found in the environment:
    /// `mongouri` is the value of the variable `MONGOURI`, or `None` where it
    /// is not set.
    ///
    /// Where the variable is absent, a placeholder that is no connection string
    /// takes its place, so that connecting fails.
    pub fn init(mongouri: Option<String>) -> (repo: MongoRepo)
        ensures
            repo.uri@ == (match mongouri {
                Some(uri) => uri@,
                None => "Error loading env variable"@,
            }),
            repo.database@ == "rustDB"@,
            repo.collection@ == "User"@,
    {
        let uri = match mongouri {
            Some(uri) => uri,
            None => "Error loading env variable".to_owned(),
        };
        MongoRepo { uri, database: "rustDB".to_owned(), collection: "User".to_owned() }
    }

    /// The command that creates `new_user`. An identifier that the caller
    /// supplied is dropped: the store assigns one.
    pub fn create_user(&self, new_user: User) -> (command: StoreCommand)
        ensures
            command@ == (StoreCommandView::InsertOne { document: new_user@.with_id(None) }),
    {
        StoreCommand::InsertOne {
            document: User {
                id: None,
                name: new_user.name,
                location: new_user.location,
                title: new_user.title,
            },
        }
    }

    /// What became of a creation: the store's acknowledgment, with the
    /// identifier it assigned.
    pub fn create_user_reply(&self, reply: StoreReply) -> (r: Result<InsertOneResult, RepoError>)
        ensures
            (match reply@ {
                StoreReplyView::Inserted { inserted_id } => r matches Ok(ack) && ack.inserted_id@
                    == inserted_id,
                _ => r matches Err(e) && e@ == failure(reply@),
            }),
    {
        match reply {
            StoreReply::Inserted(ack) => Ok(ack),
            other => Err(failure_of(other)),
        }
    }

    /// The command that looks up the user with the identifier written in
    /// `id`, or `InvalidId` where `id` is not 24 hexadecimal digits.
    pub fn get_user(&self, id: &String) -> (r: Result<StoreCommand, RepoError>)
        ensures
            (match r {
                Ok(command) => is_object_id_hex(id@) && command@ == (StoreCommandView::FindOne {
                    id: object_id_bytes(id@),
                }),
                Err(e) => !is_object_id_hex(id@) && e@ == RepoErrorView::InvalidId,
            }),
    {
        match UserId::parse(id.as_str()) {
            Some(id) => Ok(StoreCommand::FindOne { id }),
            None => Err(RepoError::InvalidId),
        }
    }

    /// What became of a lookup: the record, `NotFound` where no record
    /// matched, the failure otherwise.
    pub fn get_user_reply(&self, reply: StoreReply) -> (r: Result<User, RepoError>)
        ensures
            (match reply@ {
                StoreReplyView::Found(Some(user)) => r matches Ok(u) && u@ == user,
                StoreReplyView::Found(None) => r matches Err(e) && e@ == RepoErrorView::NotFound,
                _ => r matches Err(e) && e@ == failure(reply@),
            }),
    {
        match reply {
            StoreReply::Found(Some(user)) => Ok(user),
            StoreReply::Found(None) => Err(RepoError::NotFound),
            other => Err(failure_of(other)),
        }
    }

    /// The command that sets the fields of `new_user`, its identifier
    /// included, in the record with the identifier written in `id`; or
    /// `InvalidId` where `id` is not 24 hexadecimal digits.
    pub fn update_user(&self, id: &String, new_user: User) -> (r: Result<StoreCommand, RepoError>)
        ensures
            (match r {
                Ok(command) => is_object_id_hex(id@) && command@ == (StoreCommandView::UpdateOne {
                    id: object_id_bytes(id@), set: new_user@,
                }),
                Err(e) => !is_object_id_hex(id@) && e@ == RepoErrorView::InvalidId,
            }),
    {
        match UserId::parse(id.as_str()) {
            Some(id) => Ok(StoreCommand::UpdateOne { id, set: new_user }),
            None => Err(RepoError::InvalidId),
        }
    }

    /// What became of an update: the count of records matched, which the
    /// caller inspects; no match is no error here.
    pub fn update_user_reply(&self, reply: StoreReply) -> (r: Result<UpdateResult, RepoError>)
        ensures
            (match reply@ {
                StoreReplyView::Updated { matched_count } => r matches Ok(ack)
                    && ack.matched_count == matched_count,
                _ => r matches Err(e) && e@ == failure(reply@),
            }),
    {
        match reply {
            StoreReply::Updated(ack) => Ok(ack),
            other => Err(failure_of(other)),
        }
    }

    /// The command that deletes the user with the identifier written in `id`,
    /// or `InvalidId` where `id` is not 24 hexadecimal digits.
    pub fn delete_user(&self, id: &String) -> (r: Result<StoreCommand, RepoError>)
        ensures
            (match r {
                Ok(command) => is_object_id_hex(id@) && command@ == (StoreCommandView::DeleteOne {
                    id: object_id_bytes(id@),
                }),
                Err(e) => !is_object_id_hex(id@) && e@ == RepoErrorView::InvalidId,
            }),
    {
        match UserId::parse(id.as_str()) {
            Some(id) => Ok(StoreCommand::DeleteOne { id }),
            None => Err(RepoError::InvalidId),
        }
    }

    /// What became of a deletion: the count of records removed.
    pub fn delete_user_reply(&self, reply: StoreReply) -> (r: Result<DeleteResult, RepoError>)
        ensures
            (match reply@ {
                StoreReplyView::Deleted { deleted_count } => r matches Ok(ack)
                    && ack.deleted_count == deleted_count,
                _ => r matches Err(e) && e@ == failure(reply@),
            }),
    {
        match reply {
            StoreReply::Deleted(ack) => Ok(ack),
            other => Err(failure_of(other)),
        }
    }

    /// The command that opens a cursor over all users.
    pub fn get_all_users(&self) -> (command: StoreCommand)
        ensures
            command@ == StoreCommandView::Find,
    {
        StoreCommand::Find
    }

    /// What became of opening the cursor.
    pub fn get_all_users_reply(&self, reply: StoreReply) -> (r: Result<(), RepoError>)
        ensures
            (match reply@ {
                StoreReplyView::CursorOpened => r is Ok,
                _ => r matches Err(e) && e@ == failure(reply@),
            }),
    {
        match reply {
            StoreReply::CursorOpened => Ok(()),
            other => Err(failure_of(other)),
        }
    }

    /// The command that takes the next user from the cursor.
    pub fn next_user(&self) -> (command: StoreCommand)
        ensures
            command@ == StoreCommandView::CursorNext,
    {
        StoreCommand::CursorNext
    }

    /// What the cursor gave: the next user, or `None` once it is exhausted.
    pub fn next_user_reply(&self, reply: StoreReply) -> (r: Result<Option<User>, RepoError>)
        ensures
            (match reply@ {
                StoreReplyView::CursorItem(item) => r matches Ok(user) && user_option_view(user)
                    == item,
                _ => r matches Err(e) && e@ == failure(reply@),
            }),
    {
        match reply {
            StoreReply::CursorItem(user) => Ok(user),
            other => Err(failure_of(other)),
        }
    }
}

} // verus!
