use vstd::prelude::*;

use crate::models::{
    Expense, ExpenseId, Group, GroupId, Payment, PaymentId, User, UserId,
};

verus! {

/// Records that carry an identifier.
pub trait HasId {
    spec fn id_of(&self) -> u64;

    fn get_id(&self) -> (r: u64)
        ensures
            r == self.id_of(),
    ;
}

impl HasId for User {
    open spec fn id_of(&self) -> u64 {
        self.id
    }

    fn get_id(&self) -> (r: u64) {
        self.id
    }
}

impl HasId for Group {
    open spec fn id_of(&self) -> u64 {
        self.id
    }

    fn get_id(&self) -> (r: u64) {
        self.id
    }
}

impl HasId for Expense {
    open spec fn id_of(&self) -> u64 {
        self.id
    }

    fn get_id(&self) -> (r: u64) {
        self.id
    }
}

impl HasId for Payment {
    open spec fn id_of(&self) -> u64 {
        self.id
    }

    fn get_id(&self) -> (r: u64) {
        self.id
    }
}

/// The position of the first record with identifier `id`, if there is one.
pub open spec fn find_index<T: HasId>(s: Seq<T>, id: u64) -> Option<int>
    decreases s.len(),
{
    if s.len() == 0 {
        None
    } else if s[0].id_of() == id {
        Some(0)
    } else {
        match find_index(s.drop_first(), id) {
            Some(k) => Some(k + 1),
            None => None,
        }
    }
}

/// Whether some record has identifier `id`.
pub open spec fn has_id<T: HasId>(s: Seq<T>, id: u64) -> bool {
    exists|i: int| 0 <= i < s.len() && #[trigger] s[i].id_of() == id
}

/// `find_index` names the first record with the identifier, and finds none
/// exactly when no record has it.
pub proof fn lemma_find_index<T: HasId>(s: Seq<T>, id: u64)
    ensures
        match find_index(s, id) {
            Some(i) => 0 <= i < s.len() && s[i].id_of() == id && forall|j: int|
                0 <= j < i ==> #[trigger] s[j].id_of() != id,
            None => forall|j: int| 0 <= j < s.len() ==> #[trigger] s[j].id_of() != id,
        },
        find_index(s, id) is Some <==> has_id(s, id),
    decreases s.len(),
{
    if s.len() > 0 && s[0].id_of() != id {
        let t = s.drop_first();
        lemma_find_index(t, id);
        match find_index(t, id) {
            Some(k) => {
                assert(s[k + 1] == t[k]);
                assert forall|j: int| 0 <= j < k + 1 implies #[trigger] s[j].id_of() != id by {
                    if j > 0 {
                        assert(s[j] == t[j - 1]);
                    }
                }
                assert(has_id(s, id)) by {
                    assert(s[k + 1].id_of() == id);
                }
            },
            None => {
                assert forall|j: int| 0 <= j < s.len() implies #[trigger] s[j].id_of() != id by {
                    if j > 0 {
                        assert(s[j] == t[j - 1]);
                    }
                }
            },
        }
    } else if s.len() > 0 {
        assert(s[0].id_of() == id);
    }
}

/// The position of the first record with identifier `id`.
pub fn position_by_id<T: HasId>(v: &Vec<T>, id: u64) -> (r: Option<usize>)
    ensures
        r matches Some(i) ==> find_index(v@, id) == Some(i as int) && i < v.len()
            && v@[i as int].id_of() == id,
        r is None ==> find_index(v@, id) is None && !has_id(v@, id),
{
    proof {
        lemma_find_index(v@, id);
    }
    let mut i: usize = 0;
    while i < v.len()
        invariant
            0 <= i <= v.len(),
            forall|j: int| 0 <= j < i ==> #[trigger] v@[j].id_of() != id,
            match find_index(v@, id) {
                Some(k) => 0 <= k < v@.len() && v@[k].id_of() == id && forall|j: int|
                    0 <= j < k ==> #[trigger] v@[j].id_of() != id,
                None => forall|j: int| 0 <= j < v@.len() ==> #[trigger] v@[j].id_of() != id,
            },
        decreases v.len() - i,
    {
        if v[i].get_id() == id {
            return Some(i);
        }
        i = i + 1;
    }
    None
}

/// The data of the desktop application, held in memory.
#[derive(Debug)]
pub struct AppData {
    pub users: Vec<User>,
    pub groups: Vec<Group>,
    pub expenses: Vec<Expense>,
    pub payments: Vec<Payment>,
    pub next_user_id: UserId,
    pub next_group_id: GroupId,
    pub next_expense_id: ExpenseId,
    pub next_payment_id: PaymentId,
    pub current_user_id: Option<UserId>,
}

impl Default for AppData {
    fn default() -> (d: AppData)
        ensures
            d.users@.len() == 0,
            d.groups@.len() == 0,
            d.expenses@.len() == 0,
            d.payments@.len() == 0,
            d.next_user_id == 0,
            d.next_group_id == 0,
            d.next_expense_id == 0,
            d.next_payment_id == 0,
            d.current_user_id is None,
    {
        AppData {
            users: Vec::new(),
            groups: Vec::new(),
            expenses: Vec::new(),
            payments: Vec::new(),
            next_user_id: 0,
            next_group_id: 0,
            next_expense_id: 0,
            next_payment_id: 0,
            current_user_id: None,
        }
    }
}

/// What the application shows of a person.
#[derive(Debug, PartialEq, Eq)]
pub struct UserDto {
    pub id: UserId,
    pub name: String,
    pub email: String,
}

/// What the application shows of `u`.
pub open spec fn user_dto(u: User) -> UserDto {
    UserDto { id: u.id, name: u.name, email: u.email }
}

/// The name shown for person `user_id`: the name of the first user with
/// that identifier, or `Unknown`.
pub open spec fn spec_name_of(users: Seq<User>, user_id: UserId) -> Seq<char> {
    match find_index(users, user_id) {
        Some(i) => users[i].name@,
        None => "Unknown"@,
    }
}

/// The name shown for group `group_id`: the name of the first group with
/// that identifier, or `Unknown`.
pub open spec fn spec_group_name_of(groups: Seq<Group>, group_id: GroupId) -> Seq<char> {
    match find_index(groups, group_id) {
        Some(i) => groups[i].name@,
        None => "Unknown"@,
    }
}

/// The name of person `user_id`, or `Unknown` when nobody has that identifier.
pub fn name_of(data: &AppData, user_id: UserId) -> (r: String)
    ensures
        r@ == spec_name_of(data.users@, user_id),
{
    match position_by_id(&data.users, user_id) {
        Some(i) => data.users[i].name.clone(),
        None => "Unknown".to_string(),
    }
}

/// The name of group `group_id`, or `Unknown` when no group has that identifier.
pub fn group_name_of(data: &AppData, group_id: GroupId) -> (r: String)
    ensures
        r@ == spec_group_name_of(data.groups@, group_id),
{
    match position_by_id(&data.groups, group_id) {
        Some(i) => data.groups[i].name.clone(),
        None => "Unknown".to_string(),
    }
}

/// The person the application acts for, if one is chosen and known.
pub open spec fn spec_current_user(data: AppData) -> Option<UserDto> {
    match data.current_user_id {
        None => None,
        Some(id) => match find_index(data.users@, id) {
            Some(i) => Some(user_dto(data.users@[i])),
            None => None,
        },
    }
}

pub fn get_current_user(data: &AppData) -> (r: Option<UserDto>)
    ensures
        r == spec_current_user(*data),
        data.current_user_id is None ==> r is None,
        (data.current_user_id matches Some(id) && !has_id(data.users@, id)) ==> r is None,
        r matches Some(d) ==> (data.current_user_id == Some(d.id) && has_id(data.users@, d.id)
            && exists|i: int|
            0 <= i < data.users@.len() && data.users@[i].id == d.id && d.name == data.users@[i].name
                && d.email == data.users@[i].email),
{
    let my_id = match data.current_user_id {
        Some(id) => id,
        None => {
            return None;
        },
    };
    match position_by_id(&data.users, my_id) {
        Some(i) => {
            let u = &data.users[i];
            Some(UserDto { id: u.id, name: u.name.clone(), email: u.email.clone() })
        },
        None => None,
    }
}

/// Chooses the person the application acts for, or none. A chosen person
/// must be known.
pub fn set_current_user(data: &mut AppData, user_id: Option<UserId>) -> (r: Result<(), String>)
    ensures
        (user_id matches Some(id) && !has_id(old(data).users@, id)) ==> (r matches Err(e) && e@
            == "User not found"@ && *final(data) == *old(data)),
        !(user_id matches Some(id) && !has_id(old(data).users@, id)) ==> (r is Ok && *final(data)
            == (AppData { current_user_id: user_id, ..*old(data) })),
{
    if let Some(id) = user_id {
        proof {
            lemma_find_index(data.users@, id);
        }
        if position_by_id(&data.users, id).is_none() {
            return Err("User not found".to_string());
        }
    }
    data.current_user_id = user_id;
    Ok(())
}

/// Forgets the person the application acts for.
pub fn remove_current_user(data: &mut AppData)
    ensures
        *final(data) == (AppData { current_user_id: None, ..*old(data) }),
{
    data.current_user_id = None;
}

/// Adds a person with the next free identifier.
pub fn add_friend(data: &mut AppData, name: String, email: String) -> (r: Result<UserDto, String>)
    requires
        old(data).next_user_id < u64::MAX,
    ensures
        r == Ok::<UserDto, String>((UserDto { id: old(data).next_user_id, name, email })),
        final(data).users@ == old(data).users@.push(
            (User { id: old(data).next_user_id, name, email }),
        ),
        final(data).next_user_id == old(data).next_user_id + 1,
        final(data).groups == old(data).groups,
        final(data).expenses == old(data).expenses,
        final(data).payments == old(data).payments,
        final(data).next_group_id == old(data).next_group_id,
        final(data).next_expense_id == old(data).next_expense_id,
        final(data).next_payment_id == old(data).next_payment_id,
        final(data).current_user_id == old(data).current_user_id,
{
    let id = data.next_user_id;
    data.next_user_id = data.next_user_id + 1;
    let user = User { id, name: name.clone(), email: email.clone() };
    data.users.push(user);
    Ok(UserDto { id, name, email })
}

/// Everybody the application knows, in the order they were added.
pub fn list_friends(data: &AppData) -> (r: Vec<UserDto>)
    ensures
        r@ == data.users@.map_values(|u: User| user_dto(u)),
        r.len() == data.users.len(),
        forall|i: int|
            0 <= i < data.users.len() ==> (#[trigger] r@[i]).id == data.users@[i].id && r@[i].name
                == data.users@[i].name && r@[i].email == data.users@[i].email,
{
    let mut r: Vec<UserDto> = Vec::new();
    let mut i: usize = 0;
    while i < data.users.len()
        invariant
            0 <= i <= data.users.len(),
            r@ == data.users@.take(i as int).map_values(|u: User| user_dto(u)),
        decreases data.users.len() - i,
    {
        let u = &data.users[i];
        r.push(UserDto { id: u.id, name: u.name.clone(), email: u.email.clone() });
        i = i + 1;
        assert(r@ =~= data.users@.take(i as int).map_values(|u: User| user_dto(u)));
    }
    assert(data.users@.take(data.users.len() as int) =~= data.users@);
    r
}

} // verus!
