//! The greeting-detection string policy: an inbound text matches the
//! greeting token exactly, after trimming surrounding whitespace.

use vstd::prelude::*;

verus! {

/// One character of Unicode whitespace, the set that surrounding-whitespace
/// trimming removes.
pub open spec fn spec_is_whitespace(c: char) -> bool {
    ||| c == ' '
    ||| c == '\t'
    ||| c == '\n'
    ||| c == '\u{000B}'
    ||| c == '\u{000C}'
    ||| c == '\r'
    ||| c == '\u{0085}'
    ||| c == '\u{00A0}'
    ||| c == '\u{1680}'
    ||| (c as u32) >= 0x2000 && (c as u32) <= 0x200A
    ||| c == '\u{2028}'
    ||| c == '\u{2029}'
    ||| c == '\u{202F}'
    ||| c == '\u{205F}'
    ||| c == '\u{3000}'
}

/// A text with its leading whitespace removed.
pub open spec fn spec_ltrim(s: Seq<char>) -> Seq<char>
    decreases s.len(),
{
    if s.len() > 0 && spec_is_whitespace(s[0]) {
        spec_ltrim(s.drop_first())
    } else {
        s
    }
}

/// A text with its trailing whitespace removed.
pub open spec fn spec_rtrim(s: Seq<char>) -> Seq<char>
    decreases s.len(),
{
    if s.len() > 0 && spec_is_whitespace(s.last()) {
        spec_rtrim(s.drop_last())
    } else {
        s
    }
}

/// A text with its surrounding whitespace removed.
pub open spec fn spec_trim(s: Seq<char>) -> Seq<char> {
    spec_rtrim(spec_ltrim(s))
}

/// The greeting token the policy recognizes.
pub open spec fn spec_greeting() -> Seq<char> {
    "おはよう"@
}

/// The greeting token, for building inputs that the policy accepts.
pub fn greeting_text() -> (r: &'static str)
    ensures
        r@ == spec_greeting(),
{
    "おはよう"
}

fn is_whitespace_char(c: char) -> (r: bool)
    ensures
        r == spec_is_whitespace(c),
{
    let u = c as u32;
    (u >= 0x09 && u <= 0x0D) || u == 0x20 || u == 0x85 || u == 0xA0 || u == 0x1680 || (u >= 0x2000
        && u <= 0x200A) || u == 0x2028 || u == 0x2029 || u == 0x202F || u == 0x205F || u == 0x3000
}

/// Dropping a wholly-whitespace prefix does not change the left trim.
proof fn lemma_ltrim_of_ws_prefix(s: Seq<char>, k: int)
    requires
        0 <= k <= s.len(),
        forall|j: int| 0 <= j < k ==> spec_is_whitespace(s[j]),
    ensures
        spec_ltrim(s) == spec_ltrim(s.subrange(k, s.len() as int)),
    decreases k,
{
    if k > 0 {
        assert(spec_is_whitespace(s[0]));
        assert(spec_ltrim(s) == spec_ltrim(s.drop_first()));
        let t = s.drop_first();
        assert(t =~= s.subrange(1, s.len() as int));
        assert(forall|j: int| 0 <= j < k - 1 ==> spec_is_whitespace(t[j]));
        lemma_ltrim_of_ws_prefix(t, k - 1);
        assert(t.subrange(k - 1, t.len() as int) =~= s.subrange(k, s.len() as int));
    } else {
        assert(s.subrange(0, s.len() as int) =~= s);
    }
}

/// Dropping a wholly-whitespace suffix does not change the right trim.
proof fn lemma_rtrim_of_ws_suffix(s: Seq<char>, k: int)
    requires
        0 <= k <= s.len(),
        forall|j: int| s.len() - k <= j < s.len() ==> spec_is_whitespace(s[j]),
    ensures
        spec_rtrim(s) == spec_rtrim(s.subrange(0, s.len() - k)),
    decreases k,
{
    if k > 0 {
        assert(spec_is_whitespace(s.last()));
        assert(spec_rtrim(s) == spec_rtrim(s.drop_last()));
        let t = s.drop_last();
        assert(t =~= s.subrange(0, s.len() - 1));
        assert(forall|j: int| t.len() - (k - 1) <= j < t.len() ==> spec_is_whitespace(t[j]));
        lemma_rtrim_of_ws_suffix(t, k - 1);
        assert(t.subrange(0, t.len() - (k - 1)) =~= s.subrange(0, s.len() - k));
    } else {
        assert(s.subrange(0, s.len() as int) =~= s);
    }
}

/// The count of leading whitespace characters.
fn leading_ws(content: &str) -> (r: usize)
    ensures
        r <= content@.len(),
        forall|j: int| 0 <= j < r ==> spec_is_whitespace(content@[j]),
        r < content@.len() ==> !spec_is_whitespace(content@[r as int]),
{
    let n = content.unicode_len();
    for i in 0..n
        invariant
            n == content@.len(),
            forall|j: int| 0 <= j < i ==> spec_is_whitespace(content@[j]),
    {
        if !is_whitespace_char(content.get_char(i)) {
            return i;
        }
    }
    n
}

/// The character index just past the trimmed region, scanning trailing
/// whitespace backwards but never past `lo`.
fn trailing_ws_end(content: &str, lo: usize) -> (r: usize)
    requires
        lo <= content@.len(),
    ensures
        lo <= r <= content@.len(),
        forall|j: int| r <= j < content@.len() ==> spec_is_whitespace(content@[j]),
        r > lo ==> !spec_is_whitespace(content@[r - 1]),
{
    let n = content.unicode_len();
    let mut hi = n;
    while hi > lo
        invariant
            lo <= hi <= n,
            n == content@.len(),
            forall|j: int| hi <= j < n ==> spec_is_whitespace(content@[j]),
        decreases hi,
    {
        if !is_whitespace_char(content.get_char(hi - 1)) {
            return hi;
        }
        hi = hi - 1;
    }
    hi
}

/// Does the text match the greeting token exactly, after trimming
/// surrounding whitespace?
pub fn is_greeting(content: &str) -> (r: bool)
    ensures
        r == (spec_trim(content@) == spec_greeting()),
{
    let ghost s = content@;
    let n = content.unicode_len();
    let lo = leading_ws(content);
    let hi = trailing_ws_end(content, lo);
    proof {
        lemma_ltrim_of_ws_prefix(s, lo as int);
        let mid = s.subrange(lo as int, n as int);
        assert(spec_ltrim(mid) == mid);
        lemma_rtrim_of_ws_suffix(mid, n - hi as int);
        assert(mid.subrange(0, mid.len() - (n - hi as int)) =~= s.subrange(lo as int, hi as int));
        let trimmed = s.subrange(lo as int, hi as int);
        assert(spec_rtrim(trimmed) == trimmed);
        assert(spec_trim(s) == trimmed);
        reveal_strlit("おはよう");
        assert(spec_greeting().len() == 4);
    }
    if hi - lo != 4 {
        return false;
    }
    let eq = content.get_char(lo) == 'お' && content.get_char(lo + 1) == 'は' && content.get_char(
        lo + 2,
    ) == 'よ' && content.get_char(lo + 3) == 'う';
    proof {
        let trimmed = s.subrange(lo as int, hi as int);
        reveal_strlit("おはよう");
        assert(spec_greeting()[0] == 'お' && spec_greeting()[1] == 'は' && spec_greeting()[2]
            == 'よ' && spec_greeting()[3] == 'う');
        assert(trimmed[0] == s[lo as int] && trimmed[1] == s[lo + 1] && trimmed[2] == s[lo + 2]
            && trimmed[3] == s[lo + 3]);
        if eq {
            assert(trimmed =~= spec_greeting());
        } else {
            assert(trimmed != spec_greeting());
        }
    }
    eq
}

} // verus!
