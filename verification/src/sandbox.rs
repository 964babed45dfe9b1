//! Path sandboxing: an untrusted, user-supplied path is reduced to a
//! relative path with every `..` token removed, and then joined under the
//! configured root, so that the result stays lexically inside the root.

use vstd::prelude::*;

verus! {

/// True when `pat` occurs in `s` starting at index `i`.
pub open spec fn occurs_at(s: Seq<char>, pat: Seq<char>, i: int) -> bool {
    0 <= i && i + pat.len() <= s.len() && s.subrange(i, i + pat.len() as int) == pat
}

/// True when `pat` occurs somewhere in `s`.
pub open spec fn contains_seq(s: Seq<char>, pat: Seq<char>) -> bool {
    exists|i: int| occurs_at(s, pat, i)
}

/// The parent-directory token that the sandbox strips.
pub open spec fn dotdot() -> Seq<char> {
    seq!['.', '.']
}

/// Left-to-right, non-overlapping removal of every occurrence of `pat`
/// from `s`.
pub open spec fn remove_all_spec(s: Seq<char>, pat: Seq<char>) -> Seq<char>
    recommends
        pat.len() >= 1,
    decreases s.len(),
    when pat.len() >= 1
{
    if s.len() == 0 {
        Seq::empty()
    } else if occurs_at(s, pat, 0) {
        remove_all_spec(s.skip(pat.len() as int), pat)
    } else {
        seq![s[0]] + remove_all_spec(s.skip(1), pat)
    }
}

/// True when the characters of `s` starting at `i` spell out `pat`.
fn matches_at(s: &str, pat: &str, i: usize, n: usize, m: usize) -> (b: bool)
    requires
        n == s@.len(),
        m == pat@.len(),
        i <= n,
    ensures
        b == occurs_at(s@, pat@, i as int),
{
    if m > n - i {
        assert(!occurs_at(s@, pat@, i as int));
        return false;
    }
    let mut j: usize = 0;
    while j < m
        invariant
            n == s@.len(),
            m == pat@.len(),
            i <= n,
            m <= n - i,
            j <= m,
            forall|k: int| 0 <= k < j ==> s@[i + k] == pat@[k],
        decreases m - j,
    {
        if s.get_char(i + j) != pat.get_char(j) {
            assert(s@.subrange(i as int, i + m as int)[j as int] != pat@[j as int]);
            return false;
        }
        j = j + 1;
    }
    assert(s@.subrange(i as int, i + m as int) =~= pat@);
    true
}

/// Removes every occurrence of `pat` from `s`, scanning left to right
/// without overlap.
pub fn remove_all(s: &str, pat: &str) -> (r: String)
    requires
        pat@.len() >= 1,
    ensures
        r@ == remove_all_spec(s@, pat@),
{
    let n = s.unicode_len();
    let m = pat.unicode_len();
    let mut r = String::new();
    let mut i: usize = 0;
    proof {
        assert(s@.skip(0) =~= s@);
        assert(Seq::<char>::empty() + remove_all_spec(s@, pat@) =~= remove_all_spec(s@, pat@));
    }
    while i < n
        invariant
            n == s@.len(),
            m == pat@.len(),
            m >= 1,
            i <= n,
            remove_all_spec(s@, pat@) == r@ + remove_all_spec(s@.skip(i as int), pat@),
        decreases n - i,
    {
        let ghost prev = r@;
        if matches_at(s, pat, i, n, m) {
            proof {
                assert(occurs_at(s@.skip(i as int), pat@, 0)) by {
                    assert(s@.skip(i as int).subrange(0, pat@.len() as int) =~= s@.subrange(
                        i as int,
                        i + pat@.len() as int,
                    ));
                }
                assert(s@.skip(i as int).skip(m as int) =~= s@.skip(i + m as int));
            }
            i = i + m;
        } else {
            proof {
                assert(!occurs_at(s@.skip(i as int), pat@, 0)) by {
                    if i + m <= n {
                        assert(s@.skip(i as int).subrange(0, pat@.len() as int) =~= s@.subrange(
                            i as int,
                            i + pat@.len() as int,
                        ));
                    }
                }
                assert(s@.skip(i as int).skip(1) =~= s@.skip(i + 1));
            }
            let piece = s.substring_char(i, i + 1);
            r.append(piece);
            proof {
                assert(piece@ =~= seq![s@[i as int]]);
                assert(prev + (seq![s@[i as int]] + remove_all_spec(s@.skip(i + 1), pat@)) =~= r@
                    + remove_all_spec(s@.skip(i + 1), pat@));
            }
            i = i + 1;
        }
    }
    proof {
        assert(s@.skip(n as int) =~= Seq::<char>::empty());
        assert(r@ + Seq::<char>::empty() =~= r@);
    }
    r
}

/// When the head of `s` differs from the head of `pat`, removal keeps the
/// head in place.
proof fn lemma_remove_keeps_first(s: Seq<char>, pat: Seq<char>)
    requires
        pat.len() >= 1,
        s.len() >= 1,
        s[0] != pat[0],
    ensures
        remove_all_spec(s, pat).len() >= 1,
        remove_all_spec(s, pat)[0] == s[0],
{
    assert(!occurs_at(s, pat, 0)) by {
        if occurs_at(s, pat, 0) {
            assert(s.subrange(0, pat.len() as int)[0] == s[0]);
        }
    }
    assert(remove_all_spec(s, pat) == seq![s[0]] + remove_all_spec(s.skip(1), pat));
}

/// Law: textually removing the `..` tokens leaves a string in which no
/// `..` can be found: the left-to-right, non-overlapping removal cannot
/// reassemble one from leftover dots.
pub proof fn lemma_remove_all_dotdot(s: Seq<char>)
    ensures
        !contains_seq(remove_all_spec(s, dotdot()), dotdot()),
    decreases s.len(),
{
    let pat = dotdot();
    let r = remove_all_spec(s, pat);
    if s.len() == 0 {
        assert(forall|i: int| !occurs_at(r, pat, i));
    } else if occurs_at(s, pat, 0) {
        lemma_remove_all_dotdot(s.skip(2));
        assert(r == remove_all_spec(s.skip(2), pat));
    } else {
        lemma_remove_all_dotdot(s.skip(1));
        let rest = remove_all_spec(s.skip(1), pat);
        assert(r == seq![s[0]] + rest);
        if contains_seq(r, pat) {
            let i = choose|i: int| occurs_at(r, pat, i);
            assert(r.subrange(i, i + 2)[0] == r[i]);
            assert(r.subrange(i, i + 2)[1] == r[i + 1]);
            assert(r[i] == '.' && r[i + 1] == '.');
            if i == 0 {
                assert(s[0] == '.');
                assert(rest.len() >= 1 && rest[0] == '.');
                if s.len() == 1 {
                    assert(s.skip(1).len() == 0);
                    assert(rest.len() == 0);
                } else {
                    assert(s[1] != '.') by {
                        if s[1] == '.' {
                            assert(s.subrange(0, 2) =~= pat);
                        }
                    }
                    assert(s.skip(1)[0] == s[1]);
                    lemma_remove_keeps_first(s.skip(1), pat);
                }
                assert(false);
            } else {
                assert(rest.subrange(i - 1, i + 1) =~= r.subrange(i, i + 2));
                assert(occurs_at(rest, pat, i - 1));
                assert(false);
            }
        }
    }
}

/// Prefixing by a character other than `.` cannot create a `..` token.
pub proof fn lemma_prepend_keeps_no_dotdot(c: char, t: Seq<char>)
    requires
        c != '.',
        !contains_seq(t, dotdot()),
    ensures
        !contains_seq(seq![c] + t, dotdot()),
{
    let u = seq![c] + t;
    if contains_seq(u, dotdot()) {
        let i = choose|i: int| occurs_at(u, dotdot(), i);
        assert(u.subrange(i, i + 2)[0] == u[i]);
        assert(u.subrange(i, i + 2)[1] == u[i + 1]);
        if i == 0 {
            assert(u[0] == c);
            assert(false);
        } else {
            assert(t.subrange(i - 1, i + 1) =~= u.subrange(i, i + 2));
            assert(occurs_at(t, dotdot(), i - 1));
            assert(false);
        }
    }
}

/// What a user path becomes before the `..` removal: an absolute path is
/// reinterpreted as relative by prefixing a `.`.
pub open spec fn prefixed_spec(p: Seq<char>) -> Seq<char> {
    if p.len() > 0 && p[0] == '/' {
        seq!['.'] + p
    } else {
        p
    }
}

/// What `path_to_relative` returns.
pub open spec fn relative_spec(p: Seq<char>) -> Seq<char> {
    remove_all_spec(prefixed_spec(p), dotdot())
}

/// Turns an untrusted path into a relative one: a leading `/` is
/// neutralized with a `.` prefix and every `..` token is removed, so the
/// result can no longer climb out of the directory it is joined under.
pub fn path_to_relative(path: &str) -> (r: String)
    ensures
        r@ == relative_spec(path@),
        !contains_seq(r@, dotdot()),
{
    proof {
        reveal_strlit("..");
        reveal_strlit(".");
        assert(".."@ =~= dotdot());
        assert("."@ =~= seq!['.']);
        lemma_remove_all_dotdot(prefixed_spec(path@));
    }
    if path.unicode_len() > 0 && path.get_char(0) == '/' {
        let mut t = String::from_str(".");
        t.append(path);
        assert(t@ =~= prefixed_spec(path@));
        remove_all(t.as_str(), "..")
    } else {
        remove_all(path, "..")
    }
}

/// True when `p` is `root`, then a `/`, then a suffix free of `..`
/// tokens: lexically a descendant of `root`.
pub open spec fn sandboxed_in(root: Seq<char>, p: Seq<char>) -> bool {
    &&& p.len() >= root.len() + 1
    &&& p.subrange(0, root.len() as int) == root
    &&& p[root.len() as int] == '/'
    &&& !contains_seq(p.skip(root.len() as int), dotdot())
}

/// Joins an untrusted path under `root`: the result is always a lexical
/// descendant of `root`. This is a pure string transformation; no
/// filesystem access happens here.
pub fn resolve(root: &str, user_path: &str) -> (r: String)
    ensures
        r@ == root@ + seq!['/'] + relative_spec(user_path@),
        sandboxed_in(root@, r@),
{
    let mut out = root.to_owned();
    out.append("/");
    let rel = path_to_relative(user_path);
    out.append(rel.as_str());
    proof {
        reveal_strlit("/");
        assert(out@ =~= root@ + seq!['/'] + relative_spec(user_path@));
        assert(out@.subrange(0, root@.len() as int) =~= root@);
        assert(out@.skip(root@.len() as int) =~= seq!['/'] + relative_spec(user_path@));
        lemma_prepend_keeps_no_dotdot('/', relative_spec(user_path@));
    }
    out
}

/// Strips every occurrence of the configured root from a path meant for
/// display, so clients see root-relative names. An empty root strips
/// nothing.
pub fn directory_filter(dir: &str, root: &str) -> (r: String)
    ensures
        root@.len() >= 1 ==> r@ == remove_all_spec(dir@, root@),
        root@.len() == 0 ==> r@ == dir@,
{
    if root.unicode_len() == 0 {
        dir.to_owned()
    } else {
        remove_all(dir, root)
    }
}

} // verus!
