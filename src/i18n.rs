use vstd::prelude::*;
use vstd::string::{StrSliceExecFns, StringExecFns};

verus! {

/// `seg` is the part of `s` before its first dot, or all of `s` if it has none.
pub open spec fn is_dot_segment(seg: Seq<char>, s: Seq<char>) -> bool {
    &&& seg.len() <= s.len()
    &&& s.take(seg.len() as int) == seg
    &&& forall|i: int| 0 <= i < seg.len() ==> seg[i] != '.'
    &&& (seg.len() == s.len() || s[seg.len() as int] == '.')
}

/// The first dot of `s` at or after `from`, or its length if there is none.
fn next_dot(s: &str, from: usize) -> (r: usize)
    requires
        from <= s@.len(),
    ensures
        from <= r <= s@.len(),
        forall|i: int| from <= i < r ==> s@[i] != '.',
        r == s@.len() || s@[r as int] == '.',
{
    let n = s.unicode_len();
    let mut i = from;
    while i < n
        invariant
            n == s@.len(),
            from <= i <= n,
            forall|j: int| from <= j < i ==> s@[j] != '.',
        decreases n - i,
    {
        if s.get_char(i) == '.' {
            return i;
        }
        i = i + 1;
    }
    i
}

/// Splits a translation id written `message.variant` into the message id and,
/// if there is a dot, the variant: each is the text up to the next dot.
pub fn split_translation_id(id: &String) -> (r: (String, Option<String>))
    ensures
        is_dot_segment(r.0@, id@),
        r.1 is None <==> r.0@.len() == id@.len(),
        r.1 is Some ==> is_dot_segment(r.1->Some_0@, id@.skip(r.0@.len() + 1 as int)),
{
    let s = id.as_str();
    let n = s.unicode_len();
    let j = next_dot(s, 0);
    let msg = s.substring_char(0, j).to_string();
    proof {
        assert(s@.take(j as int) =~= s@.subrange(0, j as int));
    }
    if j == n {
        return (msg, None);
    }
    let k = next_dot(s, j + 1);
    let variant = s.substring_char(j + 1, k).to_string();
    proof {
        let rest = s@.skip(j + 1);
        assert(rest.take((k - j - 1) as int) =~= s@.subrange(j + 1, k as int));
        assert(variant@ =~= s@.subrange(j + 1, k as int));
        assert forall|i: int| 0 <= i < variant@.len() implies variant@[i] != '.' by {
            assert(variant@[i] == s@[j + 1 + i]);
        }
        if k < n {
            assert(rest[(k - j - 1) as int] == s@[k as int]);
        }
    }
    (msg, Some(variant))
}

/// The path of `url` in `locale`: a slash, the locale, then the url.
pub fn localized_url(locale: &String, url: &String) -> (r: String)
    ensures
        r@ == seq!['/'] + locale@ + url@,
{
    let mut r = "/".to_string();
    r.append(locale.as_str());
    r.append(url.as_str());
    proof {
        reveal_strlit("/");
        assert(r@ =~= seq!['/'] + locale@ + url@);
    }
    r
}

} // verus!
