use vstd::prelude::*;

use crate::text::{
    char_is_whitespace, is_whitespace_char, to_uppercase, trim_start, uppercase_of,
};

verus! {

/// A stored account, as the database returns it.
#[derive(Debug)]
pub struct UserRecord {
    pub id: i32,
    pub name: String,
    pub email: String,
    pub password_hash: String,
}

/// What the friends panel shows of a friend.
#[derive(Debug)]
pub struct FriendView {
    pub id: i32,
    pub initials: String,
    pub name: String,
    pub email: String,
}

/// The number of characters before the first white space.
pub open spec fn word_len(s: Seq<char>) -> nat
    decreases s.len(),
{
    if s.len() > 0 && !is_whitespace_char(s[0]) {
        1 + word_len(s.drop_first())
    } else {
        0
    }
}

/// The first word of a text; empty when the text is blank.
pub open spec fn first_word(s: Seq<char>) -> Seq<char> {
    trim_start(s).take(word_len(trim_start(s)) as int)
}

/// What follows the first word of a text.
pub open spec fn after_first_word(s: Seq<char>) -> Seq<char> {
    trim_start(s).skip(word_len(trim_start(s)) as int)
}

/// The second word of a text; empty when there is none.
pub open spec fn second_word(s: Seq<char>) -> Seq<char> {
    first_word(after_first_word(s))
}

/// The letters that stand for a name before they are put in upper case: the
/// first letters of the first two words, or, for a single word, its first
/// two letters.
pub open spec fn initials_of(s: Seq<char>) -> Seq<char> {
    if second_word(s).len() > 0 {
        seq![first_word(s)[0], second_word(s)[0]]
    } else if first_word(s).len() < 2 {
        first_word(s)
    } else {
        first_word(s).take(2)
    }
}

/// The first position at or after `from` that is not white space.
fn skip_spaces(s: &str, n: usize, from: usize) -> (r: usize)
    requires
        n == s@.len(),
        from <= n,
    ensures
        from <= r <= n,
        trim_start(s@.subrange(from as int, n as int)) == s@.subrange(r as int, n as int),
        r < n ==> !is_whitespace_char(s@[r as int]),
{
    let mut a = from;
    while a < n && char_is_whitespace(s.get_char(a))
        invariant
            n == s@.len(),
            from <= a <= n,
            trim_start(s@.subrange(from as int, n as int)) == trim_start(
                s@.subrange(a as int, n as int),
            ),
        decreases n - a,
    {
        assert(s@.subrange(a as int, n as int).drop_first() =~= s@.subrange(a + 1, n as int));
        a = a + 1;
    }
    a
}

/// The first position at or after `from` that is white space, or the end.
fn word_end(s: &str, n: usize, from: usize) -> (r: usize)
    requires
        n == s@.len(),
        from <= n,
    ensures
        from <= r <= n,
        word_len(s@.subrange(from as int, n as int)) == r - from,
{
    let mut b = from;
    while b < n && !char_is_whitespace(s.get_char(b))
        invariant
            n == s@.len(),
            from <= b <= n,
            word_len(s@.subrange(from as int, n as int)) == (b - from) + word_len(
                s@.subrange(b as int, n as int),
            ),
        decreases n - b,
    {
        assert(s@.subrange(b as int, n as int).drop_first() =~= s@.subrange(b + 1, n as int));
        b = b + 1;
    }
    b
}

/// The initials shown for a name, in upper case.
pub fn get_initials(name: &str) -> (r: String)
    ensures
        r@ == uppercase_of(initials_of(name@)),
{
    let n = name.unicode_len();
    let ghost s = name@;
    assert(s.subrange(0, n as int) =~= s);
    let a = skip_spaces(name, n, 0);
    let b = word_end(name, n, a);
    let c = skip_spaces(name, n, b);
    let d = word_end(name, n, c);
    proof {
        assert(first_word(s) =~= s.subrange(a as int, b as int));
        assert(after_first_word(s) =~= s.subrange(b as int, n as int));
        assert(second_word(s) =~= s.subrange(c as int, d as int));
    }
    proof {
        if a < n {
            assert(s.subrange(a as int, n as int)[0] == s[a as int]);
            assert(word_len(s.subrange(a as int, n as int)) > 0);
        }
        if c < n {
            assert(s.subrange(c as int, n as int)[0] == s[c as int]);
            assert(word_len(s.subrange(c as int, n as int)) > 0);
        }
    }
    let mut initials = String::new();
    if d > c {
        initials.append(name.substring_char(a, a + 1));
        initials.append(name.substring_char(c, c + 1));
        assert(initials@ =~= initials_of(s));
    } else if b - a < 2 {
        initials.append(name.substring_char(a, b));
        assert(initials@ =~= initials_of(s));
    } else {
        initials.append(name.substring_char(a, a + 2));
        assert(initials@ =~= initials_of(s));
    }
    to_uppercase(initials.as_str())
}

/// `v` shows account `u` as a friend.
pub open spec fn shows_friend(v: FriendView, u: UserRecord) -> bool {
    &&& v.id == u.id
    &&& v.initials@ == uppercase_of(initials_of(u.name@))
    &&& v.name == u.name
    &&& v.email == u.email
}

pub fn user_to_friend_view(user: UserRecord) -> (v: FriendView)
    ensures
        shows_friend(v, user),
{
    let initials = get_initials(user.name.as_str());
    FriendView { id: user.id, initials, name: user.name, email: user.email }
}

/// Shows each account as a friend, in order.
pub fn users_to_friend_views(users: Vec<UserRecord>) -> (r: Vec<FriendView>)
    ensures
        r.len() == users.len(),
        forall|i: int| 0 <= i < users.len() ==> shows_friend(#[trigger] r@[i], users@[i]),
{
    let ghost orig = users@;
    let mut rest = users;
    let mut r: Vec<FriendView> = Vec::new();
    while rest.len() > 0
        invariant
            r.len() + rest.len() == orig.len(),
            rest@ == orig.skip(r.len() as int),
            forall|i: int| 0 <= i < r.len() ==> shows_friend(#[trigger] r@[i], orig[i]),
        decreases rest.len(),
    {
        let ghost k = r.len() as int;
        let user = rest.remove(0);
        assert(user == orig[k]);
        r.push(user_to_friend_view(user));
        assert(rest@ =~= orig.skip(k + 1));
    }
    r
}

} // verus!
