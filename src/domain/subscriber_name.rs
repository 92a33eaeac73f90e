use vstd::prelude::*;

verus! {

/// The largest number of grapheme clusters a name may hold once trimmed.
pub const MAX_NAME_LEN: usize = 256;

/// A code point with the Unicode `White_Space` property.
pub open spec fn is_space(c: char) -> bool {
    let u = c as u32;
    (0x09 <= u <= 0x0D) || u == 0x20 || u == 0x85 || u == 0xA0 || u == 0x1680 || (0x2000 <= u
        <= 0x200A) || u == 0x2028 || u == 0x2029 || u == 0x202F || u == 0x205F || u == 0x3000
}

/// A control character (general category Cc).
pub open spec fn is_control(c: char) -> bool {
    let u = c as u32;
    u <= 0x1F || (0x7F <= u <= 0x9F)
}

/// A character that a name may not hold.
pub open spec fn is_forbidden(c: char) -> bool {
    is_control(c) || c == '/' || c == '(' || c == ')' || c == '"' || c == '<' || c == '>' || c
        == '\\' || c == '{' || c == '}'
}

/// `s` without its leading white space.
pub open spec fn trim_front(s: Seq<char>) -> Seq<char>
    decreases s.len(),
{
    if s.len() > 0 && is_space(s[0]) {
        trim_front(s.drop_first())
    } else {
        s
    }
}

/// `s` without its trailing white space.
pub open spec fn trim_back(s: Seq<char>) -> Seq<char>
    decreases s.len(),
{
    if s.len() > 0 && is_space(s.last()) {
        trim_back(s.drop_last())
    } else {
        s
    }
}

/// `s` without leading and trailing white space.
pub open spec fn trimmed(s: Seq<char>) -> Seq<char> {
    trim_back(trim_front(s))
}

/// The number of extended grapheme clusters in `s`, as `unicode-segmentation` splits it.
pub uninterp spec fn grapheme_count_of(s: Seq<char>) -> nat;

/// Relies on `unicode_segmentation::UnicodeSegmentation::graphemes` with extended clusters: the
/// number of user-perceived characters of `s`, which depends on its characters alone.
#[verifier::external_body]
fn grapheme_count(s: &str) -> (r: usize)
    ensures
        r == grapheme_count_of(s@),
{
    unicode_segmentation::UnicodeSegmentation::graphemes(s, true).count()
}

/// The rules a name meets, judged on its trimmed form: it is not empty, holds at most
/// `MAX_NAME_LEN` grapheme clusters, and holds no forbidden character.
pub open spec fn is_valid_name(s: Seq<char>) -> bool {
    let t = trimmed(s);
    &&& t.len() > 0
    &&& grapheme_count_of(t) <= MAX_NAME_LEN
    &&& forall|i: int| 0 <= i < t.len() ==> !is_forbidden(#[trigger] t[i])
}

pub fn is_space_char(c: char) -> (r: bool)
    ensures
        r == is_space(c),
{
    let u = c as u32;
    (0x09 <= u && u <= 0x0D) || u == 0x20 || u == 0x85 || u == 0xA0 || u == 0x1680 || (0x2000 <= u
        && u <= 0x200A) || u == 0x2028 || u == 0x2029 || u == 0x202F || u == 0x205F || u == 0x3000
}

fn is_forbidden_char(c: char) -> (r: bool)
    ensures
        r == is_forbidden(c),
{
    let u = c as u32;
    u <= 0x1F || (0x7F <= u && u <= 0x9F) || c == '/' || c == '(' || c == ')' || c == '"' || c
        == '<' || c == '>' || c == '\\' || c == '{' || c == '}'
}

/// Removes leading and trailing white space.
pub fn trim(s: &str) -> (r: &str)
    ensures
        r@ == trimmed(s@),
{
    let n = s.unicode_len();
    let mut i: usize = 0;
    assert(s@.subrange(0, n as int) =~= s@);
    while i < n && is_space_char(s.get_char(i))
        invariant
            n == s@.len(),
            i <= n,
            trim_front(s@.subrange(i as int, n as int)) == trim_front(s@),
        decreases n - i,
    {
        assert(s@.subrange(i as int, n as int).drop_first() =~= s@.subrange(i + 1, n as int));
        i = i + 1;
    }
    assert(trim_front(s@.subrange(i as int, n as int)) == s@.subrange(i as int, n as int));
    let mut j: usize = n;
    while j > i && is_space_char(s.get_char(j - 1))
        invariant
            n == s@.len(),
            i <= j <= n,
            trim_back(s@.subrange(i as int, j as int)) == trimmed(s@),
        decreases j - i,
    {
        assert(s@.subrange(i as int, j as int).drop_last() =~= s@.subrange(i as int, j - 1));
        j = j - 1;
    }
    s.substring_char(i, j)
}

/// A subscriber's name: trimmed, non-empty, bounded in length and free of forbidden characters.
#[derive(Debug)]
pub struct SubscriberName(String);

impl View for SubscriberName {
    type V = Seq<char>;

    closed spec fn view(&self) -> Seq<char> {
        self.0@
    }
}

impl SubscriberName {
    /// Accepts `s` when its trimmed form meets the name rules, given `graphemes`, the number of
    /// grapheme clusters of that trimmed form; otherwise returns a message that quotes `s`.
    pub fn from_grapheme_count(s: String, graphemes: usize) -> (r: Result<SubscriberName, String>)
        ensures
            r is Ok <==> {
                let t = trimmed(s@);
                &&& t.len() > 0
                &&& graphemes <= MAX_NAME_LEN
                &&& forall|i: int| 0 <= i < t.len() ==> !is_forbidden(#[trigger] t[i])
            },
            r matches Ok(name) ==> name@ == trimmed(s@),
            r matches Err(e) ==> e@ == s@ + " is not a valid subscriber name."@,
    {
        let t = trim(s.as_str());
        let n = t.unicode_len();
        let mut ok = 0 < n && graphemes <= MAX_NAME_LEN;
        let mut k: usize = 0;
        while ok && k < n
            invariant
                n == t@.len(),
                t@ == trimmed(s@),
                ok ==> 0 < n && graphemes <= MAX_NAME_LEN,
                ok ==> forall|i: int| 0 <= i < k ==> !is_forbidden(#[trigger] t@[i]),
                !ok ==> !(t@.len() > 0 && graphemes <= MAX_NAME_LEN && forall|i: int|
                    0 <= i < t@.len() ==> !is_forbidden(#[trigger] t@[i])),
            decreases n - k + (if ok { 1int } else { 0int }),
        {
            if is_forbidden_char(t.get_char(k)) {
                ok = false;
            } else {
                k = k + 1;
            }
        }
        if ok {
            Ok(SubscriberName(t.to_string()))
        } else {
            Err(s.concat(" is not a valid subscriber name."))
        }
    }

    /// Trims `s` and accepts it when the trimmed form meets the name rules; otherwise returns a
    /// message that quotes `s`.
    pub fn parse(s: String) -> (r: Result<SubscriberName, String>)
        ensures
            r is Ok <==> is_valid_name(s@),
            r matches Ok(name) ==> name@ == trimmed(s@),
            r matches Err(e) ==> e@ == s@ + " is not a valid subscriber name."@,
    {
        let graphemes = grapheme_count(trim(s.as_str()));
        SubscriberName::from_grapheme_count(s, graphemes)
    }

    pub fn as_str(&self) -> (r: &str)
        ensures
            r@ == self@,
    {
        self.0.as_str()
    }
}

} // verus!
