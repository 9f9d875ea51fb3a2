//! Who is asking.

use vstd::prelude::*;

verus! {

/// A user of the library, known by an identifier.
#[derive(Debug, PartialEq, Eq)]
pub struct User {
    pub id: String,
}

impl View for User {
    type V = Seq<char>;

    /// A user is their identifier.
    open spec fn view(&self) -> Seq<char> {
        self.id@
    }
}

impl DeepView for User {
    type V = Seq<char>;

    open spec fn deep_view(&self) -> Seq<char> {
        self@
    }
}

impl Clone for User {
    fn clone(&self) -> (copy: User)
        ensures
            copy == *self,
    {
        User { id: self.id.clone() }
    }
}

/// The authorization context of one request. A context without a user gives
/// no visibility scope.
#[derive(Debug, PartialEq, Eq)]
pub struct AuthContext {
    pub user: Option<User>,
}

impl View for AuthContext {
    type V = Option<Seq<char>>;

    /// The identifier of the user the request is made for, if any.
    open spec fn view(&self) -> Option<Seq<char>> {
        self.user.deep_view()
    }
}

impl Clone for AuthContext {
    fn clone(&self) -> (copy: AuthContext)
        ensures
            copy == *self,
    {
        AuthContext {
            user: match &self.user {
                Some(user) => Some(user.clone()),
                None => None,
            },
        }
    }
}

} // verus!
