//! Declared actions, as loaded from a batch document, and their requests.
//!
//! A batch document is a bare YAML sequence of actions, each a mapping with
//! `url`, `method`, optional `header` and `body` (string to string) and an
//! optional `name`.
use vstd::prelude::*;
use crate::request::{copy_pairs, Request};

verus! {

/// One declared request.
#[derive(Clone, Debug)]
pub struct Action {
    pub url: String,
    pub method: String,
    pub header: Vec<(String, String)>,
    pub body: Vec<(String, String)>,
    pub name: Option<String>,
}

/// A named list of actions.
#[derive(Clone, Debug)]
pub struct Rest {
    pub name: String,
    pub actions: Vec<Action>,
}

/// `r` is the request that runs action `a`, its response to be persisted.
pub open spec fn request_for(a: Action, r: Request) -> bool {
    &&& r.method == a.method
    &&& r.endpoint == a.url
    &&& r.body@ == a.body@
    &&& r.header@ == a.header@
    &&& r.name == a.name
    &&& r.save_response
}

impl Action {
    /// The request that runs this action.
    pub fn to_request(&self) -> (r: Request)
        ensures
            request_for(*self, r),
    {
        let name = match &self.name {
            Some(n) => Some(n.clone()),
            None => None,
        };
        Request::new(
            self.method.clone(),
            self.url.clone(),
            copy_pairs(&self.body),
            copy_pairs(&self.header),
            name,
            true,
        )
    }
}

/// One request per action, in the order of the actions.
pub fn parse_to_request(actions: Vec<Action>) -> (r: Vec<Request>)
    ensures
        r.len() == actions.len(),
        forall|i: int| 0 <= i < actions.len() ==> request_for(#[trigger] actions[i], r[i]),
{
    let mut r: Vec<Request> = Vec::new();
    let mut i: usize = 0;
    while i < actions.len()
        invariant
            i <= actions.len(),
            r.len() == i,
            forall|j: int| 0 <= j < i ==> request_for(#[trigger] actions[j], r[j]),
        decreases actions.len() - i,
    {
        let req = actions[i].to_request();
        r.push(req);
        i = i + 1;
    }
    r
}

} // verus!
