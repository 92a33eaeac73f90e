use vstd::prelude::*;

use crate::domain::subscriber_name::{is_space, is_space_char};

verus! {

/// Whether `s` is an address in the HTML5 e-mail syntax, as the `validator` crate judges it.
pub uninterp spec fn email_syntax_ok(s: Seq<char>) -> bool;

/// Relies on `validator::validate_email`: it refuses an empty string and any string whose last
/// '@' is missing or opens it (the local part must match a non-empty pattern), so an accepted
/// address holds an '@' after its first character.
#[verifier::external_body]
fn check_email_syntax(s: &str) -> (r: bool)
    ensures
        r == email_syntax_ok(s@),
        r ==> exists|i: int| 0 < i < s@.len() && #[trigger] s@[i] == '@',
{
    validator::validate_email(s)
}

/// The part after the last '@' of `s` holds a '.'.
pub open spec fn domain_has_dot(s: Seq<char>) -> bool {
    exists|a: int, d: int|
        0 <= a < d < s.len() && #[trigger] s[a] == '@' && #[trigger] s[d] == '.' && forall|k: int|
            a < k < s.len() ==> s[k] != '@'
}

/// `s` holds no white space.
pub open spec fn no_space(s: Seq<char>) -> bool {
    forall|i: int| 0 <= i < s.len() ==> !is_space(#[trigger] s[i])
}

/// The checks this library adds to the syntax check: the domain holds a '.', and the address
/// holds no white space.
pub open spec fn meets_local_rules(s: Seq<char>) -> bool {
    domain_has_dot(s) && no_space(s)
}

/// An address is accepted when it passes the syntax check, its domain holds a '.', and it holds
/// no white space.
pub open spec fn is_valid_email(s: Seq<char>) -> bool {
    email_syntax_ok(s) && meets_local_rules(s)
}

/// Whether `s` holds no white space.
pub fn has_no_space(s: &str) -> (r: bool)
    ensures
        r == no_space(s@),
{
    let n = s.unicode_len();
    let mut k: usize = 0;
    while k < n
        invariant
            n == s@.len(),
            k <= n,
            forall|i: int| 0 <= i < k ==> !is_space(#[trigger] s@[i]),
        decreases n - k,
    {
        if is_space_char(s.get_char(k)) {
            return false;
        }
        k = k + 1;
    }
    true
}

/// Whether the part of `s` after its last '@' holds a '.'; false when `s` holds no '@'.
pub fn has_dotted_domain(s: &str) -> (r: bool)
    ensures
        r == domain_has_dot(s@),
{
    let n = s.unicode_len();
    let mut j: usize = n;
    while j > 0 && s.get_char(j - 1) != '@'
        invariant
            n == s@.len(),
            j <= n,
            forall|k: int| j <= k < n ==> s@[k] != '@',
        decreases j,
    {
        j = j - 1;
    }
    if j == 0 {
        assert(!domain_has_dot(s@)) by {
            if domain_has_dot(s@) {
                let (a, d) = choose|a: int, d: int|
                    0 <= a < d < s@.len() && #[trigger] s@[a] == '@' && #[trigger] s@[d] == '.'
                        && forall|k: int| a < k < s@.len() ==> s@[k] != '@';
                assert(s@[a] != '@');
            }
        }
        return false;
    }
    let a: usize = j - 1;
    let mut d: usize = j;
    while d < n && s.get_char(d) != '.'
        invariant
            n == s@.len(),
            a < d <= n,
            s@[a as int] == '@',
            forall|k: int| a < k < n ==> s@[k] != '@',
            forall|k: int| a < k < d ==> s@[k] != '.',
        decreases n - d,
    {
        d = d + 1;
    }
    if d < n {
        assert(s@[a as int] == '@' && s@[d as int] == '.');
        true
    } else {
        assert(!domain_has_dot(s@)) by {
            if domain_has_dot(s@) {
                let (a2, d2) = choose|a2: int, d2: int|
                    0 <= a2 < d2 < s@.len() && #[trigger] s@[a2] == '@' && #[trigger] s@[d2] == '.'
                        && forall|k: int| a2 < k < s@.len() ==> s@[k] != '@';
                if a2 < a {
                    assert(s@[a as int] != '@');
                } else if a2 > a {
                    assert(s@[a2] != '@');
                }
                assert(s@[d2] != '.');
            }
        }
        false
    }
}

/// A subscriber's e-mail address: it passes the syntax check, its domain holds a '.', and it
/// holds no white space.
#[derive(Debug)]
pub struct SubscriberEmail(String);

impl View for SubscriberEmail {
    type V = Seq<char>;

    closed spec fn view(&self) -> Seq<char> {
        self.0@
    }
}

impl SubscriberEmail {
    /// Accepts `s` when `syntax_ok`, the verdict of the syntax check on `s`, holds and `s` meets
    /// the dotted-domain and no-white-space rules; otherwise returns a message that quotes `s`.
    pub fn from_verdict(s: String, syntax_ok: bool) -> (r: Result<SubscriberEmail, String>)
        ensures
            r is Ok <==> syntax_ok && meets_local_rules(s@),
            r matches Ok(email) ==> email@ == s@,
            r matches Err(e) ==> e@ == s@ + " is not a valid subscriber email."@,
    {
        if syntax_ok && has_dotted_domain(s.as_str()) && has_no_space(s.as_str()) {
            Ok(SubscriberEmail(s))
        } else {
            Err(s.concat(" is not a valid subscriber email."))
        }
    }

    /// Accepts `s` exactly when it passes the address syntax check, the part after its last '@'
    /// holds a '.', and it holds no white space.
    pub fn parse(s: String) -> (r: Result<SubscriberEmail, String>)
        ensures
            r is Ok <==> is_valid_email(s@),
            r is Ok ==> exists|i: int| 0 < i < s@.len() && #[trigger] s@[i] == '@',
            r is Ok ==> forall|i: int| 0 <= i < s@.len() ==> !is_space(#[trigger] s@[i]),
            r matches Ok(email) ==> email@ == s@,
            r matches Err(e) ==> e@ == s@ + " is not a valid subscriber email."@,
    {
        let ok = check_email_syntax(s.as_str());
        SubscriberEmail::from_verdict(s, ok)
    }

    pub fn as_str(&self) -> (r: &str)
        ensures
            r@ == self@,
    {
        self.0.as_str()
    }
}

} // verus!
