//! The closed set of HTTP methods and their case-insensitive spelling.
use vstd::prelude::*;

verus! {

/// One of the five methods an action may use.
#[derive(Clone, Copy, Debug, PartialEq, Eq, Structural)]
pub enum Method {
    Get,
    Post,
    Put,
    Patch,
    Delete,
}

/// The upper-case spelling of a method.
pub open spec fn spelling(m: Method) -> Seq<char> {
    match m {
        Method::Get => seq!['G', 'E', 'T'],
        Method::Post => seq!['P', 'O', 'S', 'T'],
        Method::Put => seq!['P', 'U', 'T'],
        Method::Patch => seq!['P', 'A', 'T', 'C', 'H'],
        Method::Delete => seq!['D', 'E', 'L', 'E', 'T', 'E'],
    }
}

/// `c` is the upper-case ASCII letter `u`, or its lower-case form.
pub open spec fn same_letter(c: char, u: char) -> bool {
    c == u || c as u32 == u as u32 + 32
}

/// `s` spells `word` (upper-case ASCII letters) up to ASCII case.
pub open spec fn spells(s: Seq<char>, word: Seq<char>) -> bool {
    &&& s.len() == word.len()
    &&& forall|i: int| 0 <= i < s.len() ==> same_letter(#[trigger] s[i], word[i])
}

/// The method that `s` names, ignoring ASCII case; `None` outside the closed set.
pub open spec fn method_of(s: Seq<char>) -> Option<Method> {
    if spells(s, spelling(Method::Get)) {
        Some(Method::Get)
    } else if spells(s, spelling(Method::Post)) {
        Some(Method::Post)
    } else if spells(s, spelling(Method::Put)) {
        Some(Method::Put)
    } else if spells(s, spelling(Method::Patch)) {
        Some(Method::Patch)
    } else if spells(s, spelling(Method::Delete)) {
        Some(Method::Delete)
    } else {
        None
    }
}

/// POST, PUT and PATCH carry the action's body as JSON; GET and DELETE carry none.
pub open spec fn carries_body(m: Method) -> bool {
    m == Method::Post || m == Method::Put || m == Method::Patch
}

impl Method {
    /// Whether this method carries a JSON body.
    pub fn has_body(&self) -> (r: bool)
        ensures
            r == carries_body(*self),
    {
        match self {
            Method::Post | Method::Put | Method::Patch => true,
            Method::Get | Method::Delete => false,
        }
    }

    /// The upper-case name of the method.
    pub fn as_str(&self) -> (r: &'static str)
        ensures
            r@ == spelling(*self),
    {
        proof {
            reveal_strlit("GET");
            reveal_strlit("POST");
            reveal_strlit("PUT");
            reveal_strlit("PATCH");
            reveal_strlit("DELETE");
        }
        match self {
            Method::Get => "GET",
            Method::Post => "POST",
            Method::Put => "PUT",
            Method::Patch => "PATCH",
            Method::Delete => "DELETE",
        }
    }

    /// Reads a method name, ignoring ASCII case.
    pub fn parse(s: &str) -> (r: Option<Method>)
        ensures
            r == method_of(s@),
    {
        if spells_word(s, Method::Get) {
            Some(Method::Get)
        } else if spells_word(s, Method::Post) {
            Some(Method::Post)
        } else if spells_word(s, Method::Put) {
            Some(Method::Put)
        } else if spells_word(s, Method::Patch) {
            Some(Method::Patch)
        } else if spells_word(s, Method::Delete) {
            Some(Method::Delete)
        } else {
            None
        }
    }
}

/// Whether `s` spells the name of `m`, ignoring ASCII case.
fn spells_word(s: &str, m: Method) -> (r: bool)
    ensures
        r == spells(s@, spelling(m)),
{
    let word = m.as_str();
    proof {
        reveal_strlit("GET");
        reveal_strlit("POST");
        reveal_strlit("PUT");
        reveal_strlit("PATCH");
        reveal_strlit("DELETE");
    }
    let n = s.unicode_len();
    if n != word.unicode_len() {
        return false;
    }
    let mut i: usize = 0;
    while i < n
        invariant
            n == s@.len(),
            n == word@.len(),
            word@ == spelling(m),
            forall|j: int| 0 <= j < i ==> same_letter(#[trigger] s@[j], word@[j]),
        decreases n - i,
    {
        let c = s.get_char(i);
        let u = word.get_char(i);
        if !(c == u || c as u32 == u as u32 + 32) {
            return false;
        }
        i = i + 1;
    }
    true
}

} // verus!
