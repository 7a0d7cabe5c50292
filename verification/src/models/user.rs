//! The user resource.
use vstd::prelude::*;
use vstd::string::*;
use std::sync::Arc;
use crate::client::{Client, ClientView, request_view, share};
use crate::models::fields::{
    FieldMap, entries_map, entries_view, entry_keys, has_key, has_name, is_first_named, is_key_at,
    keys_distinct, lemma_key_place_unique,
};
use crate::error::SPError;
use crate::request::{Body, BodyView, Decode, Method, Request, RequestView};

verus! {

/// One custom field of a user's profile.
#[derive(Debug, PartialEq)]
pub struct Field {
    pub name: String,
    pub order: i64,
    pub private: bool,
    pub prevent_trusted: bool,
    pub field_type: i64,
}

/// The mathematical value of a [`Field`].
pub struct FieldView {
    pub name: Seq<char>,
    pub order: int,
    pub private: bool,
    pub prevent_trusted: bool,
    pub field_type: int,
}

impl View for Field {
    type V = FieldView;

    open spec fn view(&self) -> FieldView {
        FieldView {
            name: self.name@,
            order: self.order as int,
            private: self.private,
            prevent_trusted: self.prevent_trusted,
            field_type: self.field_type as int,
        }
    }
}

impl Clone for Field {
    fn clone(&self) -> (r: Self)
        ensures
            r == *self,
    {
        Field {
            name: self.name.clone(),
            order: self.order,
            private: self.private,
            prevent_trusted: self.prevent_trusted,
            field_type: self.field_type,
        }
    }
}

impl Default for Field {
    fn default() -> (r: Self)
        ensures
            r@ == (FieldView {
                name: Seq::<char>::empty(),
                order: 0,
                private: false,
                prevent_trusted: false,
                field_type: 0,
            }),
    {
        Field { name: String::new(), order: 0, private: false, prevent_trusted: false, field_type: 0 }
    }
}

/// The path of the fetch: by id where one is given, else the caller's own.
pub open spec fn fetch_path(user_id: Option<Seq<char>>) -> Seq<char> {
    match user_id {
        Some(id) => "/v1/user/"@ + id,
        None => "/v1/me"@,
    }
}

/// The envelope in which the service answers a fetch.
#[derive(Debug)]
pub struct GetUserResponse<C> {
    pub exists: Option<bool>,
    pub id: Option<String>,
    pub content: Option<C>,
}

impl<C> GetUserResponse<C> {
    /// Unwraps the envelope: its content, or the error that says that there
    /// is none.
    pub fn into_content(self) -> (r: Result<C, SPError>)
        ensures
            match self.content {
                Some(content) => r == Ok::<C, SPError>(content),
                None => r == Err::<C, SPError>(SPError::ContentMissingError),
            },
    {
        match self.content {
            Some(content) => Ok(content),
            None => Err(SPError::ContentMissingError),
        }
    }
}

/// The path of the rename of the user `uid`.
pub open spec fn username_path(uid: Seq<char>) -> Seq<char> {
    "/v1/user/username/"@ + uid
}

/// The path of the flush of the user `uid`.
pub open spec fn update_path(uid: Seq<char>) -> Seq<char> {
    "/v1/user/"@ + uid
}

/// The value of an optional user id.
pub open spec fn id_view(user_id: Option<String>) -> Option<Seq<char>> {
    match user_id {
        Some(id) => Some(id@),
        None => None,
    }
}

/// The request that fetches a user through `client`.
pub open spec fn fetch_request_view(client: ClientView, user_id: Option<Seq<char>>) -> RequestView {
    request_view(client, fetch_path(user_id), Method::Get, None, None, Decode::Json)
}

/// The request that renames the user `uid` to `username` through `client`.
pub open spec fn username_request_view(
    client: ClientView,
    uid: Seq<char>,
    username: Seq<char>,
) -> RequestView {
    request_view(
        client,
        username_path(uid),
        Method::Patch,
        Some(BodyView::Username(username)),
        None,
        Decode::Json,
    )
}

/// The request that flushes a user: all of its fields and its system flag,
/// in one body.
pub open spec fn update_request_view(user: UserView) -> RequestView
    recommends
        user.client is Some,
{
    request_view(
        user.client->Some_0,
        update_path(user.uid),
        Method::Patch,
        Some(BodyView::Profile { fields: user.fields, is_a_system: user.is_a_system }),
        None,
        Decode::Text,
    )
}

/// A user of the service.
///
/// A user that was fetched is bound to the client that fetched it, and only
/// a bound user can be changed on the service.
#[derive(Debug)]
pub struct User {
    pub uid: String,
    fields: FieldMap,
    pub username: String,
    pub is_a_system: bool,
    pub last_operation_time: i64,
    client: Option<Arc<Client>>,
}

/// The mathematical value of a [`User`].
pub struct UserView {
    pub uid: Seq<char>,
    /// The fields with their keys, in the order in which they are kept.
    pub fields: Seq<(Seq<char>, FieldView)>,
    pub username: Seq<char>,
    pub is_a_system: bool,
    pub last_operation_time: int,
    /// The client that the user is bound to, if any.
    pub client: Option<ClientView>,
}

impl UserView {
    /// The user's fields as a mapping from key to field.
    pub open spec fn fields_map(self) -> Map<Seq<char>, FieldView> {
        entries_map(self.fields)
    }

    /// The same user, bound to `client`.
    pub open spec fn bound_to(self, client: ClientView) -> UserView {
        UserView { client: Some(client), ..self }
    }

    /// The same user under another name.
    pub open spec fn renamed(self, username: Seq<char>) -> UserView {
        UserView { username, ..self }
    }

    /// The same user with another list of fields.
    pub open spec fn with_fields(self, fields: Seq<(Seq<char>, FieldView)>) -> UserView {
        UserView { fields, ..self }
    }
}

impl View for User {
    type V = UserView;

    closed spec fn view(&self) -> UserView {
        UserView {
            uid: self.uid@,
            fields: self.fields@,
            username: self.username@,
            is_a_system: self.is_a_system,
            last_operation_time: self.last_operation_time as int,
            client: match self.client {
                Some(c) => Some((*c)@),
                None => None,
            },
        }
    }
}

impl Clone for User {
    /// A copy of the user, bound to the same client.
    fn clone(&self) -> (r: Self)
        ensures
            r@ == self@,
    {
        User {
            uid: self.uid.clone(),
            fields: self.fields.clone(),
            username: self.username.clone(),
            is_a_system: self.is_a_system,
            last_operation_time: self.last_operation_time,
            client: match &self.client {
                Some(client) => Some(share(client)),
                None => None,
            },
        }
    }
}

impl Default for User {
    /// An unbound user with no fields.
    fn default() -> (r: Self)
        ensures
            r@ == (UserView {
                uid: Seq::<char>::empty(),
                fields: Seq::<(Seq<char>, FieldView)>::empty(),
                username: Seq::<char>::empty(),
                is_a_system: false,
                last_operation_time: 0,
                client: None,
            }),
    {
        User {
            uid: String::new(),
            fields: FieldMap::new(),
            username: String::new(),
            is_a_system: false,
            last_operation_time: 0,
            client: None,
        }
    }
}

impl User {
    /// An unbound user, from its parts.
    pub fn from_parts(
        uid: String,
        fields: FieldMap,
        username: String,
        is_a_system: bool,
        last_operation_time: i64,
    ) -> (r: Self)
        ensures
            r@ == (UserView {
                uid: uid@,
                fields: fields@,
                username: username@,
                is_a_system,
                last_operation_time: last_operation_time as int,
                client: None,
            }),
            keys_distinct(r@.fields),
    {
        proof {
            use_type_invariant(&fields);
        }
        User { uid, fields, username, is_a_system, last_operation_time, client: None }
    }

    /// The id that the service gave the user.
    pub fn uid(&self) -> (uid: &str)
        ensures
            uid@ == self@.uid,
    {
        self.uid.as_str()
    }

    /// The user's name.
    pub fn username(&self) -> (name: &str)
        ensures
            name@ == self@.username,
    {
        self.username.as_str()
    }

    /// Whether the user is a system.
    pub fn is_a_system(&self) -> (flag: bool)
        ensures
            flag == self@.is_a_system,
    {
        self.is_a_system
    }

    /// The time of the last operation on the user, as the service counts it.
    pub fn last_operation_time(&self) -> (time: i64)
        ensures
            time == self@.last_operation_time,
    {
        self.last_operation_time
    }

    /// Sets the system flag, locally: the service learns of it with the
    /// next flush.
    pub fn set_is_a_system(&mut self, value: bool)
        ensures
            final(self)@ == (UserView { is_a_system: value, ..old(self)@ }),
    {
        self.is_a_system = value;
    }

    /// Whether the user is bound to a client.
    pub fn is_bound(&self) -> (bound: bool)
        ensures
            bound == (self@.client is Some),
    {
        self.client.is_some()
    }

    /// The request that fetches a user through `client`: the user
    /// `user_id` where an id is given, else the one that the credential
    /// belongs to.
    pub fn fetch_request(user_id: &Option<String>, client: &Client) -> (request: Request)
        ensures
            request@ == fetch_request_view(client@, id_view(*user_id)),
    {
        match user_id {
            Some(id) => {
                let mut path = "/v1/user/".to_owned();
                path.append(id.as_str());
                client.request_json(path.as_str(), Method::Get, None, None)
            },
            None => client.request_json("/v1/me", Method::Get, None, None),
        }
    }

    /// Completes a fetch. `outcome` is what the request of
    /// [`User::fetch_request`] gave: a failure is handed on unchanged, an
    /// envelope without content is an error of its own, and the user in an
    /// envelope with content is returned, bound to `client`.
    pub fn new(outcome: Result<GetUserResponse<User>, SPError>, client: Arc<Client>) -> (r: Result<
        User,
        SPError,
    >)
        ensures
            match outcome {
                Err(e) => r == Err::<User, SPError>(e),
                Ok(response) => match response.content {
                    Some(user) => r matches Ok(u) && u@ == user@.bound_to((*client)@)
                        && keys_distinct(u@.fields),
                    None => r == Err::<User, SPError>(SPError::ContentMissingError),
                },
            },
    {
        match outcome {
            Err(e) => Err(e),
            Ok(response) => match response.into_content() {
                Ok(user) => {
                    let mut user = user;
                    proof {
                        use_type_invariant(&user.fields);
                    }
                    user.client = Some(client);
                    Ok(user)
                },
                Err(e) => Err(e),
            },
        }
    }

    /// The request that renames the user to `new_username`.
    pub fn username_request(&self, new_username: &str) -> (request: Request)
        requires
            self@.client is Some,
        ensures
            request@ == username_request_view(self@.client->Some_0, self@.uid, new_username@),
    {
        let client = self.client.as_ref().unwrap();
        let mut path = "/v1/user/username/".to_owned();
        path.append(self.uid.as_str());
        client.request_json(
            path.as_str(),
            Method::Patch,
            Some(Body::Username(new_username.to_owned())),
            None,
        )
    }

    /// Completes a rename. `outcome` is what the request of
    /// [`User::username_request`] gave: after a success the user has the new
    /// name, after a failure the user is as before and the failure is
    /// handed on.
    pub fn set_username(&mut self, new_username: &str, outcome: Result<(), SPError>) -> (r: Result<
        (),
        SPError,
    >)
        requires
            old(self)@.client is Some,
        ensures
            outcome is Ok ==> r is Ok,
            outcome matches Err(e) ==> r == Err::<(), SPError>(e),
            outcome is Ok ==> final(self)@ == old(self)@.renamed(new_username@),
            final(self)@.client == old(self)@.client,
            outcome is Err ==> *final(self) == *old(self),
    {
        match outcome {
            Ok(()) => {
                self.username = new_username.to_owned();
                Ok(())
            },
            Err(e) => Err(e),
        }
    }

    /// A snapshot of the fields, each with its key. No key stands twice.
    pub fn get_fields(&self) -> (fields: Vec<(String, Field)>)
        ensures
            entries_view(fields@) == self@.fields,
            keys_distinct(self@.fields),
    {
        self.fields.entries()
    }

    /// Replaces the first field that is named `name` by `new_field`, under
    /// the key that it had: no key comes or goes. Where no field is named
    /// so, nothing changes.
    pub fn set_field(&mut self, name: String, new_field: Field)
        ensures
            final(self)@ == old(self)@.with_fields(final(self)@.fields),
            final(self)@.client == old(self)@.client,
            !has_name(old(self)@.fields, name@) ==> final(self)@ == old(self)@,
            forall|i: int|
                is_first_named(old(self)@.fields, name@, i) ==> {
                    &&& final(self)@.fields == old(self)@.fields.update(
                        i,
                        (old(self)@.fields[i].0, new_field@),
                    )
                    &&& final(self)@.fields_map() == old(self)@.fields_map().insert(
                        old(self)@.fields[i].0,
                        new_field@,
                    )
                },
            entry_keys(final(self)@.fields) == entry_keys(old(self)@.fields),
            final(self)@.fields_map().dom() == old(self)@.fields_map().dom(),
            keys_distinct(final(self)@.fields),
    {
        proof {
            use_type_invariant(&self.fields);
        }
        match self.fields.find_name(&name) {
            Some(i) => {
                proof {
                    assert forall|j: int|
                        is_first_named(old(self)@.fields, name@, j) implies j == i by {}
                }
                self.fields.replace(i, new_field);
            },
            None => {},
        }
    }

    /// Replaces the field under `key` by `new_field` and says whether there
    /// was one. Where the key is unknown, nothing changes.
    pub fn set_field_by_key(&mut self, key: String, new_field: Field) -> (replaced: bool)
        ensures
            replaced == has_key(old(self)@.fields, key@),
            final(self)@ == old(self)@.with_fields(final(self)@.fields),
            final(self)@.client == old(self)@.client,
            !replaced ==> final(self)@ == old(self)@,
            forall|i: int|
                is_key_at(old(self)@.fields, key@, i) ==> final(self)@.fields == old(
                    self,
                )@.fields.update(i, (key@, new_field@)),
            replaced ==> final(self)@.fields_map() == old(self)@.fields_map().insert(
                key@,
                new_field@,
            ),
            entry_keys(final(self)@.fields) == entry_keys(old(self)@.fields),
            final(self)@.fields_map().dom() == old(self)@.fields_map().dom(),
            keys_distinct(final(self)@.fields),
    {
        proof {
            use_type_invariant(&self.fields);
        }
        match self.fields.find_key(&key) {
            Some(i) => {
                proof {
                    let before = old(self)@.fields;
                    assert(is_key_at(before, key@, i as int));
                    assert forall|j: int| is_key_at(before, key@, j) implies j == i by {
                        lemma_key_place_unique(before, key@, i as int, j);
                    }
                }
                self.fields.replace(i, new_field);
                true
            },
            None => false,
        }
    }

    /// Puts `field` under `key`: in place of the field that the key had, or
    /// as a new entry behind the others.
    pub fn insert_field(&mut self, key: String, field: Field)
        ensures
            final(self)@ == old(self)@.with_fields(final(self)@.fields),
            final(self)@.client == old(self)@.client,
            forall|i: int|
                is_key_at(old(self)@.fields, key@, i) ==> final(self)@.fields == old(
                    self,
                )@.fields.update(i, (key@, field@)),
            !has_key(old(self)@.fields, key@) ==> final(self)@.fields == old(self)@.fields.push(
                (key@, field@),
            ),
            final(self)@.fields_map() == old(self)@.fields_map().insert(key@, field@),
            keys_distinct(final(self)@.fields),
    {
        self.fields.insert(key, field);
    }

    /// The request that flushes the user: the whole of its fields and its
    /// system flag, as they now are.
    pub fn update(&self) -> (request: Request)
        requires
            self@.client is Some,
        ensures
            request@ == update_request_view(self@),
    {
        let client = self.client.as_ref().unwrap();
        let mut path = "/v1/user/".to_owned();
        path.append(self.uid.as_str());
        client.request_text(
            path.as_str(),
            Method::Patch,
            Some(Body::Profile { fields: self.fields.entries(), is_a_system: self.is_a_system }),
            None,
        )
    }
}

/// The request of a flush holds the client, the user's id, its fields and
/// its system flag, and nothing else of the user: two flushes with no
/// change of these between them send the same request.
pub proof fn law_update_repeats(first: UserView, second: UserView)
    requires
        first.client is Some,
        second.client == first.client,
        second.uid == first.uid,
        second.fields == first.fields,
        second.is_a_system == first.is_a_system,
    ensures
        update_request_view(second) == update_request_view(first),
{
}

} // verus!
