//! Bearer-token checks for the admin API and the node API.
use vstd::prelude::*;
use vstd::utf8::encode_utf8;
use crate::text::{chars_of, string_from, sub_vec, trim, trim_vec, vec_starts_with, starts_with};

verus! {

/// Identity of the node that a node token authenticated.
#[derive(Clone)]
pub struct NodeClaims {
    pub node_id: String,
}

/// Compares two byte strings without stopping at the first difference.
/// The answer is whether the two byte strings are equal.
pub fn constant_time_eq(a: &[u8], b: &[u8]) -> (res: bool)
    ensures
        res == (a@ == b@),
{
    if a.len() != b.len() {
        return false;
    }
    let mut diff: u8 = 0;
    let mut i: usize = 0;
    while i < a.len()
        invariant
            a.len() == b.len(),
            0 <= i <= a.len(),
            (diff == 0) <==> (forall|j: int| 0 <= j < i ==> a@[j] == b@[j]),
        decreases a.len() - i,
    {
        let x = a[i];
        let y = b[i];
        let nd = diff | (x ^ y);
        assert((nd == 0) <==> (diff == 0 && x == y)) by (bit_vector)
            requires
                nd == diff | (x ^ y),
        ;
        diff = nd;
        i = i + 1;
    }
    let res = diff == 0;
    proof {
        if res {
            assert(a@ =~= b@);
        }
    }
    res
}

/// The token of an `Authorization` header value: what follows `Bearer ` or
/// `bearer `, trimmed.
pub open spec fn bearer_of(header: Seq<char>) -> Option<Seq<char>> {
    if starts_with(header, "Bearer "@) || starts_with(header, "bearer "@) {
        Some(trim(header.skip(7)))
    } else {
        None
    }
}

/// The bearer token of an `Authorization` header value, if it has one.
pub fn extract_bearer(header: &str) -> (res: Option<String>)
    ensures
        match bearer_of(header@) {
            Some(t) => res matches Some(r) && r@ == t,
            None => res is None,
        },
{
    let v = chars_of(header);
    if vec_starts_with(&v, "Bearer ") || vec_starts_with(&v, "bearer ") {
        proof {
            reveal_strlit("Bearer ");
            reveal_strlit("bearer ");
        }
        let rest = sub_vec(&v, 7, v.len());
        assert(rest@ =~= header@.skip(7));
        let t = trim_vec(&rest);
        Some(string_from(&t))
    } else {
        None
    }
}

/// Why an admin request is refused, if it is: no usable bearer token, or
/// a token other than the configured one.
pub open spec fn admin_refusal(header: Option<Seq<char>>, expected: Seq<char>) -> Option<Seq<char>> {
    match header {
        None => Some("missing or malformed Authorization header"@),
        Some(h) => match bearer_of(h) {
            None => Some("missing or malformed Authorization header"@),
            Some(t) => if encode_utf8(t) == encode_utf8(expected) { None } else { Some("invalid token"@) },
        },
    }
}

/// Checks an admin request's `Authorization` header against the API token.
pub fn check_admin_token(header: Option<&str>, expected: &str) -> (res: Result<(), &'static str>)
    ensures
        match admin_refusal(match header { Some(h) => Some(h@), None => None }, expected@) {
            Some(m) => res matches Err(e) && e@ == m,
            None => res is Ok,
        },
{
    let h = match header {
        Some(h) => h,
        None => {
            return Err("missing or malformed Authorization header");
        },
    };
    let token = match extract_bearer(h) {
        Some(t) => t,
        None => {
            return Err("missing or malformed Authorization header");
        },
    };
    if constant_time_eq(token.as_str().as_bytes(), expected.as_bytes()) {
        Ok(())
    } else {
        Err("invalid token")
    }
}

} // verus!
