//! The write to the user table that records a sign-in, and what its outcome means.
//!
//! The write is conditional: it only succeeds where the table holds no item with an
//! `amount` yet. A refused condition means the account already existed.

use vstd::prelude::*;
use crate::error::LoginError;

verus! {

/// The table that holds the users.
pub const USERS_TABLE: &'static str = "users";

/// The condition under which the write is made: no `amount` attribute exists yet.
pub const NEW_USER_CONDITION: &'static str = "attribute_not_exists(amount)";

/// A value of an item attribute.
#[derive(Debug, PartialEq, Eq)]
pub enum AttrValue {
    /// A string attribute.
    S(String),
    /// A number attribute, in its decimal text.
    N(String),
}

/// The contents of an [`AttrValue`].
pub enum AttrValueView {
    S(Seq<char>),
    N(Seq<char>),
}

impl View for AttrValue {
    type V = AttrValueView;

    open spec fn view(&self) -> AttrValueView {
        match self {
            AttrValue::S(s) => AttrValueView::S(s@),
            AttrValue::N(n) => AttrValueView::N(n@),
        }
    }
}

/// Which values the store hands back from a write.
#[derive(Clone, Copy, Debug, PartialEq, Eq, Structural)]
pub enum ReturnValues {
    /// The item as it was before the write.
    AllOld,
}

/// A conditional write of one item.
pub struct PutItemRequest {
    pub table: String,
    /// The item's attributes, as (name, value) pairs in the order they are set.
    pub item: Vec<(String, AttrValue)>,
    pub condition: String,
    pub return_values: ReturnValues,
}

/// The contents of a [`PutItemRequest`].
pub struct PutItemView {
    pub table: Seq<char>,
    pub item: Seq<(Seq<char>, AttrValueView)>,
    pub condition: Seq<char>,
    pub return_values: ReturnValues,
}

impl View for PutItemRequest {
    type V = PutItemView;

    open spec fn view(&self) -> PutItemView {
        PutItemView {
            table: self.table@,
            item: self.item@.map_values(|a: (String, AttrValue)| (a.0@, a.1@)),
            condition: self.condition@,
            return_values: self.return_values,
        }
    }
}

/// The write made on every successful sign-in: into `users`, an item whose `openid` is the
/// string `"0"` and whose `amount` is the number `0`, on condition that no `amount` exists,
/// handing back the old item.
pub open spec fn spec_new_user_put() -> PutItemView {
    PutItemView {
        table: USERS_TABLE@,
        item: seq![("openid"@, AttrValueView::S("0"@)), ("amount"@, AttrValueView::N("0"@))],
        condition: NEW_USER_CONDITION@,
        return_values: ReturnValues::AllOld,
    }
}

/// The write made on every successful sign-in (see [`spec_new_user_put`]).
pub fn new_user_put() -> (request: PutItemRequest)
    ensures
        request@ == spec_new_user_put(),
{
    let mut item: Vec<(String, AttrValue)> = Vec::new();
    item.push(("openid".to_owned(), AttrValue::S("0".to_owned())));
    item.push(("amount".to_owned(), AttrValue::N("0".to_owned())));
    let request = PutItemRequest {
        table: USERS_TABLE.to_owned(),
        item,
        condition: NEW_USER_CONDITION.to_owned(),
        return_values: ReturnValues::AllOld,
    };
    assert(request@.item =~= spec_new_user_put().item);
    request
}

/// How the store answered the write.
#[derive(Clone, Copy, Debug, PartialEq, Eq, Structural)]
pub enum PutOutcome {
    /// The item was written.
    Written,
    /// The condition was refused: the account already existed.
    ConditionFailed,
    /// Any other failure of the store or of the way to it.
    Failed,
}

/// Whether the signing-in account is new, as the write's outcome tells.
pub open spec fn spec_account_is_new(outcome: PutOutcome) -> Result<bool, LoginError> {
    match outcome {
        PutOutcome::Written => Ok(true),
        PutOutcome::ConditionFailed => Ok(false),
        PutOutcome::Failed => Err(LoginError::Database),
    }
}

/// Whether the signing-in account is new: a written item means a new account, a refused
/// condition an existing one, and any other failure refuses the sign-in.
pub fn account_is_new(outcome: PutOutcome) -> (r: Result<bool, LoginError>)
    ensures
        r == spec_account_is_new(outcome),
{
    match outcome {
        PutOutcome::Written => Ok(true),
        PutOutcome::ConditionFailed => Ok(false),
        PutOutcome::Failed => Err(LoginError::Database),
    }
}

} // verus!
