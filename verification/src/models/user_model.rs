use vstd::prelude::*;

verus! {

/// The value of a hexadecimal digit, or -1 for any other character.
pub open spec fn hex_digit_value(c: char) -> int {
    if '0' <= c && c <= '9' {
        c as int - '0' as int
    } else if 'a' <= c && c <= 'f' {
        c as int - 'a' as int + 10
    } else if 'A' <= c && c <= 'F' {
        c as int - 'A' as int + 10
    } else {
        -1
    }
}

/// The textual form of an identifier: exactly 24 hexadecimal digits, in
/// either case.
pub open spec fn is_object_id_hex(s: Seq<char>) -> bool {
    &&& s.len() == 24
    &&& forall|i: int| 0 <= i < 24 ==> hex_digit_value(#[trigger] s[i]) >= 0
}

/// The 12 bytes that a 24-digit text stands for: two digits per byte, the
/// high one first.
pub open spec fn object_id_bytes(s: Seq<char>) -> Seq<u8> {
    Seq::new(12, |i: int| (16 * hex_digit_value(s[2 * i]) + hex_digit_value(s[2 * i + 1])) as u8)
}

/// The identifier that the store assigns to a record: 12 bytes.
#[derive(Debug, Clone, Copy, PartialEq, Eq)]
pub struct UserId {
    pub bytes: [u8; 12],
}

impl View for UserId {
    type V = Seq<u8>;

    open spec fn view(&self) -> Seq<u8> {
        self.bytes@
    }
}

/// `ObjectId::parse_str` of bson, followed by `ObjectId::bytes`. The text is
/// accepted exactly when it is 24 hexadecimal digits, and the bytes are then
/// the digits taken in pairs; every other text is refused.
#[verifier::external_body]
fn parse_object_id(s: &str) -> (r: Option<[u8; 12]>)
    ensures
        r is Some <==> is_object_id_hex(s@),
        r matches Some(b) ==> b@ == object_id_bytes(s@),
{
    match bson::oid::ObjectId::parse_str(s) {
        Ok(oid) => Some(oid.bytes()),
        Err(_) => None,
    }
}

impl UserId {
    /// Reads an identifier from its textual form.
    pub fn parse(s: &str) -> (r: Option<UserId>)
        ensures
            r is Some <==> is_object_id_hex(s@),
            r matches Some(id) ==> id@ == object_id_bytes(s@),
    {
        match parse_object_id(s) {
            Some(bytes) => Some(UserId { bytes }),
            None => None,
        }
    }
}

/// A user record.
///
/// `id` is absent until the store has assigned one, and never changes
/// afterwards. The other fields are free text; none of them is validated. A
/// record has these four fields and no other: an e-mail address is not part
/// of it.
#[derive(Debug, Clone, PartialEq, Eq)]
pub struct User {
    pub id: Option<UserId>,
    pub name: String,
    pub location: String,
    pub title: String,
}

/// What a [`User`] holds, as mathematical values.
pub struct UserView {
    pub id: Option<Seq<u8>>,
    pub name: Seq<char>,
    pub location: Seq<char>,
    pub title: Seq<char>,
}

impl UserView {
    /// The same record under another identifier (or none).
    pub open spec fn with_id(self, id: Option<Seq<u8>>) -> UserView {
        UserView { id, name: self.name, location: self.location, title: self.title }
    }
}

/// The view of an optional identifier.
pub open spec fn id_view(id: Option<UserId>) -> Option<Seq<u8>> {
    match id {
        Some(id) => Some(id@),
        None => None,
    }
}

impl View for User {
    type V = UserView;

    open spec fn view(&self) -> UserView {
        UserView {
            id: id_view(self.id),
            name: self.name@,
            location: self.location@,
            title: self.title@,
        }
    }
}

/// The views of a sequence of records, in the same order.
pub open spec fn users_view(users: Seq<User>) -> Seq<UserView> {
    users.map_values(|u: User| u@)
}

impl User {
    /// A copy of this record under another identifier (or none).
    pub fn with_id(&self, id: Option<UserId>) -> (r: User)
        ensures
            r@ == self@.with_id(id_view(id)),
    {
        User {
            id,
            name: self.name.clone(),
            location: self.location.clone(),
            title: self.title.clone(),
        }
    }
}

} // verus!
