//! Records that several resources share.

use crate::codec::{required_member, FromJson};
use crate::json::{required, Json};
use serde_json::Value;
use vstd::prelude::*;

verus! {

/// A git branch ref
#[derive(Debug, Clone)]
pub struct Branch {
    pub name: String,
}

/// The mathematical content of a [`Branch`].
pub struct BranchView {
    pub name: Seq<char>,
}

impl View for Branch {
    type V = BranchView;

    open spec fn view(&self) -> BranchView {
        BranchView { name: self.name@ }
    }
}

impl FromJson for Branch {
    open spec fn decoded(json: Json) -> Option<BranchView> {
        match required(json, "name"@, |j: Json| String::decoded(j)) {
            Some(name) => Some(BranchView { name }),
            None => None,
        }
    }

    fn from_json(value: &Value) -> (r: Option<Branch>) {
        let name = required_member::<String>(value, "name")?;
        Some(Branch { name })
    }
}

/// A Github owner
#[derive(Debug, Clone)]
pub struct Owner {
    pub id: usize,
    pub login: String,
}

/// The mathematical content of an [`Owner`].
pub struct OwnerView {
    pub id: usize,
    pub login: Seq<char>,
}

impl View for Owner {
    type V = OwnerView;

    open spec fn view(&self) -> OwnerView {
        OwnerView { id: self.id, login: self.login@ }
    }
}

impl FromJson for Owner {
    open spec fn decoded(json: Json) -> Option<OwnerView> {
        match (
            required(json, "id"@, |j: Json| usize::decoded(j)),
            required(json, "login"@, |j: Json| String::decoded(j)),
        ) {
            (Some(id), Some(login)) => Some(OwnerView { id, login }),
            _ => None,
        }
    }

    fn from_json(value: &Value) -> (r: Option<Owner>) {
        let id = required_member::<usize>(value, "id")?;
        let login = required_member::<String>(value, "login")?;
        Some(Owner { id, login })
    }
}

} // verus!
