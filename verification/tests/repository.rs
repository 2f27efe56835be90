use user_service::models::user_model::{User, UserId};
use user_service::repository::mongodb_repo::{
    DeleteResult, InsertOneResult, MongoRepo, RepoError, StoreCommand, StoreReply, UpdateResult,
};

fn repo() -> MongoRepo {
    MongoRepo::init(Some("mongodb://localhost:27017".to_string()))
}

fn user(id: Option<UserId>, name: &str, location: &str, title: &str) -> User {
    User {
        id,
        name: name.to_string(),
        location: location.to_string(),
        title: title.to_string(),
    }
}

const HEX: &str = "53e37d08776f724e42000000";

fn hex_id() -> UserId {
    UserId { bytes: [0x53, 0xe3, 0x7d, 0x08, 0x77, 0x6f, 0x72, 0x4e, 0x42, 0x00, 0x00, 0x00] }
}

#[test]
fn init_takes_the_connection_string() {
    let repo = MongoRepo::init(Some("mongodb://db.example:27017".to_string()));
    assert_eq!(repo.uri, "mongodb://db.example:27017");
    assert_eq!(repo.database, "rustDB");
    assert_eq!(repo.collection, "User");
}

#[test]
fn init_without_the_variable_holds_the_placeholder() {
    let repo = MongoRepo::init(None);
    assert_eq!(repo.uri, "Error loading env variable");
    assert_eq!(repo.database, "rustDB");
    assert_eq!(repo.collection, "User");
}

#[test]
fn create_inserts_without_an_identifier() {
    let command = repo().create_user(user(None, "A", "B", "C"));
    assert_eq!(command, StoreCommand::InsertOne { document: user(None, "A", "B", "C") });
}

#[test]
fn create_drops_an_identifier_that_was_supplied() {
    let command = repo().create_user(user(Some(hex_id()), "A", "B", "C"));
    assert_eq!(command, StoreCommand::InsertOne { document: user(None, "A", "B", "C") });
}

#[test]
fn get_looks_up_by_the_parsed_identifier() {
    let command = repo().get_user(&HEX.to_string());
    assert_eq!(command, Ok(StoreCommand::FindOne { id: hex_id() }));
    let upper = repo().get_user(&HEX.to_uppercase());
    assert_eq!(upper, Ok(StoreCommand::FindOne { id: hex_id() }));
}

#[test]
fn get_refuses_a_malformed_identifier() {
    assert_eq!(repo().get_user(&"not-a-valid-id".to_string()), Err(RepoError::InvalidId));
    assert_eq!(repo().get_user(&String::new()), Err(RepoError::InvalidId));
}

#[test]
fn update_sets_the_fields_it_was_given() {
    let other = UserId { bytes: [9; 12] };
    let command = repo().update_user(&HEX.to_string(), user(Some(other), "N", "L", "T"));
    assert_eq!(
        command,
        Ok(StoreCommand::UpdateOne { id: hex_id(), set: user(Some(other), "N", "L", "T") })
    );
    let bare = repo().update_user(&HEX.to_string(), user(None, "N", "L", "T"));
    assert_eq!(
        bare,
        Ok(StoreCommand::UpdateOne { id: hex_id(), set: user(None, "N", "L", "T") })
    );
}

#[test]
fn update_refuses_a_malformed_identifier() {
    let r = repo().update_user(&"53e37d08776f724e4200000".to_string(), user(None, "N", "L", "T"));
    assert_eq!(r, Err(RepoError::InvalidId));
}

#[test]
fn delete_removes_by_the_parsed_identifier() {
    assert_eq!(
        repo().delete_user(&HEX.to_string()),
        Ok(StoreCommand::DeleteOne { id: hex_id() })
    );
}

#[test]
fn delete_refuses_a_malformed_identifier() {
    assert_eq!(repo().delete_user(&"zz".to_string()), Err(RepoError::InvalidId));
}

#[test]
fn listing_opens_a_cursor_and_takes_from_it() {
    assert_eq!(repo().get_all_users(), StoreCommand::Find);
    assert_eq!(repo().next_user(), StoreCommand::CursorNext);
}

#[test]
fn create_reply_gives_the_acknowledgment() {
    let ack = InsertOneResult { inserted_id: hex_id() };
    assert_eq!(repo().create_user_reply(StoreReply::Inserted(ack)), Ok(ack));
}

#[test]
fn get_reply_gives_the_record() {
    let found = user(Some(hex_id()), "A", "B", "C");
    assert_eq!(repo().get_user_reply(StoreReply::Found(Some(found.clone()))), Ok(found));
}

#[test]
fn get_reply_without_a_record_is_not_found() {
    assert_eq!(repo().get_user_reply(StoreReply::Found(None)), Err(RepoError::NotFound));
}

#[test]
fn update_reply_gives_the_match_count() {
    let none = UpdateResult { matched_count: 0 };
    let one = UpdateResult { matched_count: 1 };
    assert_eq!(repo().update_user_reply(StoreReply::Updated(none)), Ok(none));
    assert_eq!(repo().update_user_reply(StoreReply::Updated(one)), Ok(one));
}

#[test]
fn delete_reply_gives_the_delete_count() {
    let none = DeleteResult { deleted_count: 0 };
    let one = DeleteResult { deleted_count: 1 };
    assert_eq!(repo().delete_user_reply(StoreReply::Deleted(none)), Ok(none));
    assert_eq!(repo().delete_user_reply(StoreReply::Deleted(one)), Ok(one));
}

#[test]
fn cursor_replies_are_read() {
    assert_eq!(repo().get_all_users_reply(StoreReply::CursorOpened), Ok(()));
    let next = user(Some(hex_id()), "A", "B", "C");
    assert_eq!(
        repo().next_user_reply(StoreReply::CursorItem(Some(next.clone()))),
        Ok(Some(next))
    );
    assert_eq!(repo().next_user_reply(StoreReply::CursorItem(None)), Ok(None));
}

#[test]
fn an_unreachable_store_is_a_connection_error() {
    let reply = || StoreReply::Unreachable("connection refused".to_string());
    let expected = RepoError::Connection("connection refused".to_string());
    assert_eq!(repo().create_user_reply(reply()), Err(expected.clone()));
    assert_eq!(repo().get_user_reply(reply()), Err(expected.clone()));
    assert_eq!(repo().update_user_reply(reply()), Err(expected.clone()));
    assert_eq!(repo().delete_user_reply(reply()), Err(expected.clone()));
    assert_eq!(repo().get_all_users_reply(reply()), Err(expected.clone()));
    assert_eq!(repo().next_user_reply(reply()), Err(expected));
}

#[test]
fn a_refused_operation_is_an_operation_error() {
    let reply = || StoreReply::Rejected("E11000 duplicate key".to_string());
    let expected = RepoError::Operation("E11000 duplicate key".to_string());
    assert_eq!(repo().create_user_reply(reply()), Err(expected.clone()));
    assert_eq!(repo().get_user_reply(reply()), Err(expected.clone()));
    assert_eq!(repo().update_user_reply(reply()), Err(expected.clone()));
    assert_eq!(repo().delete_user_reply(reply()), Err(expected.clone()));
    assert_eq!(repo().get_all_users_reply(reply()), Err(expected.clone()));
    assert_eq!(repo().next_user_reply(reply()), Err(expected));
}

#[test]
fn a_reply_to_another_command_is_malformed() {
    let ack = InsertOneResult { inserted_id: hex_id() };
    assert_eq!(
        repo().create_user_reply(StoreReply::Found(None)),
        Err(RepoError::MalformedReply)
    );
    assert_eq!(
        repo().get_user_reply(StoreReply::Inserted(ack)),
        Err(RepoError::MalformedReply)
    );
    assert_eq!(
        repo().get_user_reply(StoreReply::CursorItem(None)),
        Err(RepoError::MalformedReply)
    );
    assert_eq!(
        repo().update_user_reply(StoreReply::Deleted(DeleteResult { deleted_count: 1 })),
        Err(RepoError::MalformedReply)
    );
    assert_eq!(
        repo().delete_user_reply(StoreReply::Updated(UpdateResult { matched_count: 1 })),
        Err(RepoError::MalformedReply)
    );
    assert_eq!(
        repo().get_all_users_reply(StoreReply::CursorItem(None)),
        Err(RepoError::MalformedReply)
    );
    assert_eq!(
        repo().next_user_reply(StoreReply::CursorOpened),
        Err(RepoError::MalformedReply)
    );
}

#[test]
fn each_error_has_its_text() {
    assert_eq!(RepoError::InvalidId.message(), "invalid ID");
    assert_eq!(RepoError::NotFound.message(), "No user found with specified ID");
    assert_eq!(RepoError::Connection("no route to host".to_string()).message(), "no route to host");
    assert_eq!(RepoError::Operation("write refused".to_string()).message(), "write refused");
    assert_eq!(RepoError::MalformedReply.message(), "malformed store response");
}
