//! Plain text helpers over `&str`: equality of contents and splitting on `/`.
use vstd::prelude::*;

verus! {

/// Whether two strings hold the same characters.
pub fn str_eq(a: &str, b: &str) -> (r: bool)
    ensures
        r == (a@ == b@),
{
    let n = a.unicode_len();
    let m = b.unicode_len();
    if n != m {
        return false;
    }
    let mut i: usize = 0;
    while i < n
        invariant
            n == a@.len(),
            n == b@.len(),
            i <= n,
            forall|j: int| 0 <= j < i ==> a@[j] == b@[j],
        decreases n - i,
    {
        if a.get_char(i) != b.get_char(i) {
            return false;
        }
        i = i + 1;
    }
    assert(a@ =~= b@);
    true
}

/// The pieces of `s` between slashes, as `str::split('/')` gives them: one
/// more piece than there are slashes, empty pieces kept.
pub open spec fn split_slash(s: Seq<char>) -> Seq<Seq<char>>
    decreases s.len(),
{
    if s.len() == 0 {
        seq![Seq::empty()]
    } else {
        let r = split_slash(s.drop_last());
        if s.last() == '/' {
            r.push(Seq::empty())
        } else {
            r.update(r.len() - 1, r.last().push(s.last()))
        }
    }
}

pub open spec fn no_slash(s: Seq<char>) -> bool {
    forall|i: int| 0 <= i < s.len() ==> #[trigger] s[i] != '/'
}

pub proof fn lemma_split_slash_nonempty(s: Seq<char>)
    ensures
        split_slash(s).len() >= 1,
    decreases s.len(),
{
    if s.len() > 0 {
        lemma_split_slash_nonempty(s.drop_last());
    }
}

/// Text without a slash is one piece.
pub proof fn lemma_split_no_slash(s: Seq<char>)
    requires
        no_slash(s),
    ensures
        split_slash(s) == seq![s],
    decreases s.len(),
{
    if s.len() == 0 {
        assert(s =~= Seq::<char>::empty());
        assert(split_slash(s) =~= seq![s]);
    } else {
        let t = s.drop_last();
        assert(no_slash(t)) by {
            assert forall|i: int| 0 <= i < t.len() implies #[trigger] t[i] != '/' by {
                assert(t[i] == s[i]);
            }
        }
        lemma_split_no_slash(t);
        assert(s.last() != '/') by {
            assert(s[s.len() - 1] != '/');
        }
        assert(t.push(s.last()) =~= s);
        assert(split_slash(s) =~= seq![s]);
    }
}

/// Splitting at a slash splits the two sides apart.
pub proof fn lemma_split_join(a: Seq<char>, b: Seq<char>)
    ensures
        split_slash(a + seq!['/'] + b) == split_slash(a) + split_slash(b),
    decreases b.len(),
{
    let j = a + seq!['/'] + b;
    if b.len() == 0 {
        assert(j.drop_last() =~= a);
        assert(split_slash(b) =~= seq![Seq::<char>::empty()]);
        assert(split_slash(j) =~= split_slash(a) + split_slash(b));
    } else {
        let b0 = b.drop_last();
        assert(j.drop_last() =~= a + seq!['/'] + b0);
        assert(j.last() == b.last());
        lemma_split_join(a, b0);
        lemma_split_slash_nonempty(b0);
        let r = split_slash(a) + split_slash(b0);
        if b.last() == '/' {
            assert(split_slash(j) =~= split_slash(a) + split_slash(b));
        } else {
            let q = split_slash(b0);
            assert(r.update(r.len() - 1, r.last().push(b.last())) =~= split_slash(a) + q.update(
                q.len() - 1,
                q.last().push(b.last()),
            ));
            assert(split_slash(j) =~= split_slash(a) + split_slash(b));
        }
    }
}

pub open spec fn views(v: Seq<String>) -> Seq<Seq<char>> {
    v.map_values(|x: String| x@)
}

/// Splits `s` at every `/`.
pub fn split_slash_exec(s: &str) -> (r: Vec<String>)
    ensures
        views(r@) == split_slash(s@),
{
    let n = s.unicode_len();
    let mut parts: Vec<String> = Vec::new();
    let mut start: usize = 0;
    let mut i: usize = 0;
    assert(s@.take(0) =~= Seq::<char>::empty());
    assert(views(parts@).push(s@.subrange(0, 0)) =~= split_slash(s@.take(0)));
    while i < n
        invariant
            n == s@.len(),
            start <= i <= n,
            views(parts@).push(s@.subrange(start as int, i as int)) == split_slash(s@.take(i as int)),
        decreases n - i,
    {
        let c = s.get_char(i);
        let ghost old_views = views(parts@);
        assert(s@.take(i + 1).drop_last() =~= s@.take(i as int));
        assert(s@.take(i + 1).last() == c);
        if c == '/' {
            let piece = String::from_str(s.substring_char(start, i));
            parts.push(piece);
            assert(views(parts@) =~= old_views.push(s@.subrange(start as int, i as int)));
            start = i + 1;
            assert(s@.subrange(start as int, i + 1) =~= Seq::<char>::empty());
        } else {
            assert(s@.subrange(start as int, i + 1) =~= s@.subrange(start as int, i as int).push(c));
            let ghost r = old_views.push(s@.subrange(start as int, i as int));
            assert(r.update(r.len() - 1, r.last().push(c)) =~= old_views.push(
                s@.subrange(start as int, i + 1),
            ));
        }
        i = i + 1;
    }
    let last = String::from_str(s.substring_char(start, n));
    let ghost before = views(parts@);
    parts.push(last);
    assert(s@.take(n as int) =~= s@);
    assert(views(parts@) =~= before.push(s@.subrange(start as int, n as int)));
    parts
}

} // verus!
