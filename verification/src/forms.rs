use vstd::prelude::*;

use crate::friendship::{friendship_row, spec_ordered_pair};

verus! {

/// The person signed in to the web application.
#[derive(Debug)]
pub struct CurrentUser {
    pub id: i32,
    pub name: String,
    pub email: String,
}

/// The form that adds a friend by e-mail address.
#[derive(Debug)]
pub struct NewFriendForm {
    pub email: String,
}

/// The form that creates a group with some friends.
#[derive(Debug)]
pub struct NewGroupForm {
    pub name: String,
    pub friend_ids: Vec<i32>,
}

/// The form that creates an account.
#[derive(Debug)]
pub struct NewUserForm {
    pub name: String,
    pub email: String,
    pub password: String,
}

/// Why a friend could not be added.
#[derive(Debug, Clone, Copy, PartialEq, Eq, Structural)]
pub enum FriendFormError {
    /// Nobody registered with the given address.
    NoSuchUser,
    /// The address is the user's own.
    Yourself,
    /// The two are friends already.
    AlreadyFriends,
}

impl FriendFormError {
    /// The text shown in the form.
    pub fn message(&self) -> (m: &'static str)
        ensures
            m@ == match *self {
                FriendFormError::NoSuchUser => "No registered user has that email."@,
                FriendFormError::Yourself => "You cannot add yourself as a friend."@,
                FriendFormError::AlreadyFriends => "This user is already your friend."@,
            },
    {
        match self {
            FriendFormError::NoSuchUser => "No registered user has that email.",
            FriendFormError::Yourself => "You cannot add yourself as a friend.",
            FriendFormError::AlreadyFriends => "This user is already your friend.",
        }
    }
}

/// Decides whom a friend request is for, given the account found for the
/// entered address: there must be one, and it must not be the user's own.
pub fn friend_to_add(current_user_id: i32, found_user_id: Option<i32>) -> (r: Result<
    i32,
    FriendFormError,
>)
    ensures
        r == (match found_user_id {
            None => Err(FriendFormError::NoSuchUser),
            Some(id) => if id == current_user_id {
                Err(FriendFormError::Yourself)
            } else {
                Ok(id)
            },
        }),
{
    match found_user_id {
        None => Err(FriendFormError::NoSuchUser),
        Some(id) => if id == current_user_id {
            Err(FriendFormError::Yourself)
        } else {
            Ok(id)
        },
    }
}

impl FriendFormError {
    /// The response headers that put the form, with its error, back in its
    /// place on the page.
    pub fn form_headers(&self) -> (h: Vec<(&'static str, &'static str)>)
        ensures
            h@.len() == 2,
            h@[0].0@ == "hx-retarget"@,
            h@[0].1@ == "#friend-form-slot"@,
            h@[1].0@ == "hx-reswap"@,
            h@[1].1@ == "innerHTML"@,
    {
        let mut h: Vec<(&'static str, &'static str)> = Vec::new();
        h.push(("hx-retarget", "#friend-form-slot"));
        h.push(("hx-reswap", "innerHTML"));
        h
    }
}

/// The friendship to store between the current user and the person found,
/// given whether they are friends already: an existing friendship (or the
/// same person on both sides) is refused, otherwise the ordered pair is
/// stored.
pub fn friendship_outcome(current_user_id: i32, friend_id: i32, already_friends: bool) -> (r:
    Result<(i32, i32), FriendFormError>)
    ensures
        r == (if current_user_id == friend_id || already_friends {
            Err(FriendFormError::AlreadyFriends)
        } else {
            Ok(spec_ordered_pair(current_user_id, friend_id))
        }),
        current_user_id == friend_id || already_friends ==> r == Err::<(i32, i32), FriendFormError>(
            FriendFormError::AlreadyFriends,
        ),
        r matches Ok(p) ==> p.0 < p.1 && ((p.0 == current_user_id && p.1 == friend_id) || (p.0
            == friend_id && p.1 == current_user_id)),
        current_user_id != friend_id && !already_friends ==> r is Ok,
{
    match friendship_row(current_user_id, friend_id, already_friends) {
        Some(row) => Ok(row),
        None => Err(FriendFormError::AlreadyFriends),
    }
}

/// The whole friend request: the account found for the entered address,
/// whether the two are friends already, and the outcome. Nobody found,
/// oneself, and an existing friendship are refused in that order; otherwise
/// the ordered pair is stored.
pub open spec fn friend_request_outcome(
    current_user_id: i32,
    found_user_id: Option<i32>,
    already_friends: bool,
) -> Result<(i32, i32), FriendFormError> {
    match found_user_id {
        None => Err(FriendFormError::NoSuchUser),
        Some(id) => if id == current_user_id {
            Err(FriendFormError::Yourself)
        } else if already_friends {
            Err(FriendFormError::AlreadyFriends)
        } else {
            Ok(spec_ordered_pair(current_user_id, id))
        },
    }
}

/// Decides a friend request from the account found for the entered address
/// and whether the two are friends already (which is only looked up once an
/// account other than the user's own was found).
pub fn decide_friend_request(current_user_id: i32, found_user_id: Option<i32>, already_friends: bool) -> (r:
    Result<(i32, i32), FriendFormError>)
    ensures
        r == friend_request_outcome(current_user_id, found_user_id, already_friends),
        found_user_id is None ==> r == Err::<(i32, i32), FriendFormError>(
            FriendFormError::NoSuchUser,
        ),
        found_user_id == Some(current_user_id) ==> r == Err::<(i32, i32), FriendFormError>(
            FriendFormError::Yourself,
        ),
        (found_user_id matches Some(id) && id != current_user_id && already_friends) ==> r == Err::<
            (i32, i32),
            FriendFormError,
        >(FriendFormError::AlreadyFriends),
        (found_user_id matches Some(id) && id != current_user_id && !already_friends) ==> r is Ok,
        r matches Ok(p) ==> (found_user_id matches Some(id) && id != current_user_id
            && !already_friends && p.0 < p.1 && ((p.0 == current_user_id && p.1 == id) || (p.0 == id
            && p.1 == current_user_id))),
{
    let friend_id = match friend_to_add(current_user_id, found_user_id) {
        Ok(id) => id,
        Err(e) => {
            return Err(e);
        },
    };
    friendship_outcome(current_user_id, friend_id, already_friends)
}

} // verus!
