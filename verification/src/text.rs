//! Small operations on strings, stated over their sequences of characters.

use vstd::prelude::*;
use vstd::string::*;

verus! {

/// The views of a sequence of strings.
pub open spec fn views(names: Seq<String>) -> Seq<Seq<char>> {
    names.map_values(|name: String| name@)
}

/// `prefix` stands at the start of `text`.
pub open spec fn spec_has_prefix(text: Seq<char>, prefix: Seq<char>) -> bool {
    prefix.len() <= text.len() && text.subrange(0, prefix.len() as int) == prefix
}

/// What follows `prefix` in `text`, where `text` starts with it.
pub open spec fn spec_strip_prefix(text: Seq<char>, prefix: Seq<char>) -> Option<Seq<char>> {
    if spec_has_prefix(text, prefix) {
        Some(text.subrange(prefix.len() as int, text.len() as int))
    } else {
        None
    }
}

/// Whether two strings hold the same characters.
pub fn same_text(a: &str, b: &str) -> (same: bool)
    ensures
        same == (a@ == b@),
{
    let left = a.to_string();
    let right = b.to_string();
    left == right
}

/// `a` followed by `b`.
pub fn join(a: &str, b: &str) -> (joined: String)
    ensures
        joined@ == a@ + b@,
{
    let head = a.to_string();
    head.concat(b)
}

/// Whether `text` starts with `prefix`.
pub fn has_prefix(text: &str, prefix: &str) -> (found: bool)
    ensures
        found == spec_has_prefix(text@, prefix@),
{
    let wanted = prefix.unicode_len();
    if text.unicode_len() < wanted {
        return false;
    }
    let mut i: usize = 0;
    while i < wanted
        invariant
            wanted == prefix@.len(),
            wanted <= text@.len(),
            i <= wanted,
            forall|k: int| 0 <= k < i ==> text@[k] == prefix@[k],
        decreases wanted - i,
    {
        if text.get_char(i) != prefix.get_char(i) {
            assert(text@.subrange(0, wanted as int)[i as int] != prefix@[i as int]);
            return false;
        }
        i += 1;
    }
    assert(text@.subrange(0, wanted as int) =~= prefix@);
    true
}

/// `text` without `prefix` at its start; `None` where `text` does not start
/// with it.
pub fn strip_prefix(text: &str, prefix: &str) -> (rest: Option<String>)
    ensures
        rest is Some <==> spec_has_prefix(text@, prefix@),
        rest matches Some(s) ==> Some(s@) == spec_strip_prefix(text@, prefix@),
{
    if has_prefix(text, prefix) {
        let from = prefix.unicode_len();
        let to = text.unicode_len();
        Some(text.substring_char(from, to).to_string())
    } else {
        None
    }
}

/// `a` comes before `b` when the two are compared byte by byte: at the first
/// place where they differ `a` has the smaller byte, or `a` ends first.
pub open spec fn spec_bytes_before(a: Seq<u8>, b: Seq<u8>) -> bool
    decreases a.len(),
{
    if b.len() == 0 {
        false
    } else if a.len() == 0 {
        true
    } else if a[0] != b[0] {
        a[0] < b[0]
    } else {
        spec_bytes_before(a.skip(1), b.skip(1))
    }
}

/// `a` comes before `b` in the order of strings: the order of their UTF-8
/// bytes.
pub open spec fn spec_before(a: Seq<char>, b: Seq<char>) -> bool {
    spec_bytes_before(vstd::utf8::encode_utf8(a), vstd::utf8::encode_utf8(b))
}

/// Past a common start, the order is that of the rests.
pub proof fn lemma_before_past_common_start(a: Seq<u8>, b: Seq<u8>, n: int)
    requires
        0 <= n <= a.len(),
        n <= b.len(),
        a.take(n) == b.take(n),
    ensures
        spec_bytes_before(a, b) == spec_bytes_before(a.skip(n), b.skip(n)),
    decreases n,
{
    if n == 0 {
        assert(a.skip(0) =~= a);
        assert(b.skip(0) =~= b);
    } else {
        assert forall|k: int| 0 <= k < n implies #[trigger] a[k] == b[k] by {
            assert(a.take(n)[k] == a[k]);
            assert(b.take(n)[k] == b[k]);
        }
        assert(a.skip(1).take(n - 1) =~= b.skip(1).take(n - 1));
        lemma_before_past_common_start(a.skip(1), b.skip(1), n - 1);
        assert(a.skip(1).skip(n - 1) =~= a.skip(n));
        assert(b.skip(1).skip(n - 1) =~= b.skip(n));
    }
}

/// Nothing comes before itself.
pub proof fn lemma_before_irreflexive(a: Seq<u8>)
    ensures
        !spec_bytes_before(a, a),
    decreases a.len(),
{
    if a.len() > 0 {
        lemma_before_irreflexive(a.skip(1));
    }
}

/// What comes before something that comes before a third comes before the
/// third.
pub proof fn lemma_before_transitive(a: Seq<u8>, b: Seq<u8>, c: Seq<u8>)
    requires
        spec_bytes_before(a, b),
        spec_bytes_before(b, c),
    ensures
        spec_bytes_before(a, c),
    decreases a.len(),
{
    if a.len() > 0 && b.len() > 0 && c.len() > 0 {
        if a[0] == b[0] && b[0] == c[0] {
            lemma_before_transitive(a.skip(1), b.skip(1), c.skip(1));
        }
    }
}

/// Whether `a` comes before `b` in the order of strings.
pub fn before(a: &str, b: &str) -> (first: bool)
    ensures
        first == spec_before(a@, b@),
{
    let x = a.as_bytes();
    let y = b.as_bytes();
    let mut i: usize = 0;
    while i < x.len() && i < y.len()
        invariant
            i <= x@.len(),
            i <= y@.len(),
            x@.take(i as int) == y@.take(i as int),
            x@ == vstd::utf8::encode_utf8(a@),
            y@ == vstd::utf8::encode_utf8(b@),
        decreases x@.len() - i,
    {
        if x[i] != y[i] {
            proof {
                lemma_before_past_common_start(x@, y@, i as int);
                assert(x@.skip(i as int)[0] == x@[i as int]);
                assert(y@.skip(i as int)[0] == y@[i as int]);
            }
            return x[i] < y[i];
        }
        assert(x@.take(i as int + 1) =~= x@.take(i as int).push(x@[i as int]));
        assert(y@.take(i as int + 1) =~= y@.take(i as int).push(y@[i as int]));
        i += 1;
    }
    proof {
        lemma_before_past_common_start(x@, y@, i as int);
        assert(x@.skip(i as int).len() == x@.len() - i);
        assert(y@.skip(i as int).len() == y@.len() - i);
    }
    i < y.len()
}

/// `text` filled up with spaces on the right to `width` characters; a text
/// that is as long or longer stands as it is.
pub open spec fn spec_padded(text: Seq<char>, width: nat) -> Seq<char> {
    if text.len() >= width {
        text
    } else {
        text + Seq::new((width - text.len()) as nat, |i: int| ' ')
    }
}

/// `text` filled up with spaces on the right to `width` characters.
pub fn padded(text: &str, width: usize) -> (line: String)
    ensures
        line@ == spec_padded(text@, width as nat),
{
    let shown = text.unicode_len();
    let mut line = text.to_string();
    let mut reached = shown;
    proof {
        reveal_strlit(" ");
        assert(line@ =~= text@ + Seq::new(0nat, |i: int| ' '));
    }
    while reached < width
        invariant
            shown == text@.len(),
            shown <= reached,
            shown < width ==> reached <= width,
            shown >= width ==> reached == shown,
            line@ == text@ + Seq::new((reached - shown) as nat, |i: int| ' '),
            " "@ == seq![' '],
        decreases width - reached,
    {
        line.append(" ");
        reached += 1;
        assert(line@ =~= text@ + Seq::new((reached - shown) as nat, |i: int| ' '));
    }
    assert(Seq::new(0nat, |i: int| ' ') =~= Seq::<char>::empty());
    assert(line@ =~= spec_padded(text@, width as nat));
    line
}

} // verus!
