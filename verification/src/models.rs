//! The decoded response documents, and the policy that judges an
//! introspected token.

use vstd::prelude::*;
use vstd::std_specs::convert::FromSpecImpl;
use vstd::string::*;

verus! {

/// A bearer credential of the application itself.
#[derive(Debug, Clone)]
pub struct AppTokenResp {
    pub access_token: String,
    pub token_type: String,
}

/// A bearer credential of an end user.
#[derive(Debug, Clone)]
pub struct AccessTokenResp {
    pub access_token: String,
}

/// What the provider reports of an introspected token.
#[derive(Debug, Clone)]
pub struct CheckTokenResp {
    pub data: TokenData,
}

/// The record inside an introspection document. `mode` holds what the wire
/// calls `type`; the two timestamps are seconds since the Unix epoch.
#[derive(Debug, Clone)]
pub struct TokenData {
    pub app_id: String,
    pub mode: String,
    pub application: String,
    pub data_access_expires_at: i64,
    pub expires_at: i64,
    pub is_valid: bool,
    pub scopes: Vec<String>,
    pub user_id: String,
}

/// The profile of a user.
#[derive(Debug, Clone)]
pub struct UserFacebookData {
    pub id: String,
    pub name: String,
    pub email: String,
}

/// Whom a token was issued to: a user, or anything else.
#[derive(Debug, Clone, Copy, PartialEq, Eq, Structural)]
pub enum Mode {
    User,
    Others,
}

impl Mode {
    /// `User` for exactly `USER`; `Others` for every other string.
    pub open spec fn of_wire(wire: Seq<char>) -> Mode {
        if wire == "USER"@ {
            Mode::User
        } else {
            Mode::Others
        }
    }
}

impl From<String> for Mode {
    fn from(mode: String) -> (m: Mode) {
        if mode == "USER".to_owned() {
            Mode::User
        } else {
            Mode::Others
        }
    }
}

impl FromSpecImpl<String> for Mode {
    open spec fn obeys_from_spec() -> bool {
        true
    }

    open spec fn from_spec(mode: String) -> Mode {
        Mode::of_wire(mode@)
    }
}

/// The mapping from wire strings to modes is total, and `User` stands for
/// `USER` alone: the empty string and `user` are `Others`, as is every
/// other string.
pub proof fn lemma_mode_of_wire(wire: Seq<char>)
    ensures
        Mode::of_wire(wire) == Mode::User <==> wire == "USER"@,
        Mode::of_wire(wire) == Mode::Others <==> wire != "USER"@,
        Mode::of_wire(Seq::empty()) == Mode::Others,
        Mode::of_wire("user"@) == Mode::Others,
{
    reveal_strlit("USER");
    reveal_strlit("user");
    assert("USER"@.len() == 4);
    assert("user"@[0] != "USER"@[0]);
}

/// A permission that the policy asks for.
#[derive(Debug, Clone, Copy, PartialEq, Eq, Structural)]
pub enum ScopeItem {
    Email,
    PublicProfile,
}

impl ScopeItem {
    /// The name of the scope on the wire.
    pub open spec fn wire(self) -> Seq<char> {
        match self {
            ScopeItem::Email => "email"@,
            ScopeItem::PublicProfile => "public_profile"@,
        }
    }

    /// The scope that a wire name stands for, if it is one of the two.
    pub open spec fn of_wire(wire: Seq<char>) -> Option<ScopeItem> {
        if wire == "email"@ {
            Some(ScopeItem::Email)
        } else if wire == "public_profile"@ {
            Some(ScopeItem::PublicProfile)
        } else {
            None
        }
    }

    /// The wire name as a string.
    pub fn to_string(&self) -> (wire: String)
        ensures
            wire@ == self.wire(),
    {
        match self {
            ScopeItem::Email => "email".to_owned(),
            ScopeItem::PublicProfile => "public_profile".to_owned(),
        }
    }

    /// Reads a wire name. The comparison is exact: case and surrounding
    /// whitespace count.
    pub fn from_wire(wire: &str) -> (item: Option<ScopeItem>)
        ensures
            item == ScopeItem::of_wire(wire@),
    {
        let wire = wire.to_owned();
        if wire == "email".to_owned() {
            Some(ScopeItem::Email)
        } else if wire == "public_profile".to_owned() {
            Some(ScopeItem::PublicProfile)
        } else {
            None
        }
    }
}

/// Writing a scope to the wire and reading it back gives the same scope,
/// and a wire name that reads as a scope is that scope's name.
pub proof fn lemma_scope_item_round_trip(item: ScopeItem, wire: Seq<char>)
    ensures
        ScopeItem::of_wire(item.wire()) == Some(item),
        ScopeItem::of_wire(wire) == Some(item) <==> wire == item.wire(),
{
    reveal_strlit("email");
    reveal_strlit("public_profile");
    assert("email"@.len() != "public_profile"@.len());
}

/// The scope names of a list, each as its character sequence.
pub open spec fn scope_names(scopes: Seq<String>) -> Seq<Seq<char>> {
    scopes.map_values(|s: String| s@)
}

/// Looks a name up in a list of scopes, byte for byte.
pub fn has_scope(scopes: &Vec<String>, name: &str) -> (found: bool)
    ensures
        found == scope_names(scopes@).contains(name@),
{
    let wanted = name.to_owned();
    let mut i: usize = 0;
    while i < scopes.len()
        invariant
            i <= scopes@.len(),
            wanted@ == name@,
            forall|j: int| 0 <= j < i ==> scope_names(scopes@)[j] != name@,
        decreases scopes@.len() - i,
    {
        if scopes[i] == wanted {
            assert(scope_names(scopes@)[i as int] == name@);
            return true;
        }
        i += 1;
    }
    false
}

impl CheckTokenResp {
    /// The provider calls the token valid.
    pub open spec fn is_live(&self) -> bool {
        self.data.is_valid
    }

    /// The token was issued to a user.
    pub open spec fn is_user_token(&self) -> bool {
        Mode::of_wire(self.data.mode@) == Mode::User
    }

    /// The token was issued for the application `app_id`.
    pub open spec fn is_issued_for(&self, app_id: Seq<char>) -> bool {
        self.data.app_id@ == app_id
    }

    /// The user granted `scope`.
    pub open spec fn grants(&self, scope: ScopeItem) -> bool {
        scope_names(self.data.scopes@).contains(scope.wire())
    }

    /// The policy: a live user token of the expected application that grants
    /// both scopes. Timestamps, user and application name play no part.
    pub open spec fn authorizes(&self, app_id: Seq<char>) -> bool {
        &&& self.is_live()
        &&& self.is_user_token()
        &&& self.is_issued_for(app_id)
        &&& self.grants(ScopeItem::Email)
        &&& self.grants(ScopeItem::PublicProfile)
    }

    /// Decides whether the token authorizes the application `app_id`. Every
    /// document gets an answer; one that fails any condition gets `false`.
    pub fn is_valid(&self, app_id: String) -> (valid: bool)
        ensures
            valid == self.authorizes(app_id@),
    {
        self.data.is_valid && Mode::from(self.data.mode.clone()) == Mode::User && self.data.app_id
            == app_id && has_scope(&self.data.scopes, ScopeItem::Email.to_string().as_str())
            && has_scope(&self.data.scopes, ScopeItem::PublicProfile.to_string().as_str())
    }
}

/// The policy is monotone in its five conditions. Where every condition
/// that `after` meets is met by `before` too, `after` authorizes only if
/// `before` does; and a document that misses any one condition does not
/// authorize.
pub proof fn lemma_validation_monotone(
    before: CheckTokenResp,
    before_app: Seq<char>,
    after: CheckTokenResp,
    after_app: Seq<char>,
)
    requires
        after.is_live() ==> before.is_live(),
        after.is_user_token() ==> before.is_user_token(),
        after.is_issued_for(after_app) ==> before.is_issued_for(before_app),
        after.grants(ScopeItem::Email) ==> before.grants(ScopeItem::Email),
        after.grants(ScopeItem::PublicProfile) ==> before.grants(ScopeItem::PublicProfile),
    ensures
        after.authorizes(after_app) ==> before.authorizes(before_app),
        !after.is_live() ==> !after.authorizes(after_app),
        !after.is_user_token() ==> !after.authorizes(after_app),
        !after.is_issued_for(after_app) ==> !after.authorizes(after_app),
        !after.grants(ScopeItem::Email) ==> !after.authorizes(after_app),
        !after.grants(ScopeItem::PublicProfile) ==> !after.authorizes(after_app),
{
}

} // verus!
