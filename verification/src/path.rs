//! Unix path components, component-wise prefixes and joining.
use vstd::prelude::*;
use crate::text::chars_of;

verus! {

/// Adds a finished slash-free piece to the components found so far; empty
/// pieces (repeated or trailing separators) and `.` pieces are dropped.
pub open spec fn flush_piece(acc: Seq<Seq<char>>, cur: Seq<char>) -> Seq<Seq<char>> {
    if cur.len() == 0 || cur == seq!['.'] { acc } else { acc.push(cur) }
}

/// The normal components of `s` from position `i` on, given the piece `cur`
/// read since the last separator and the components `acc` before it.
pub open spec fn scan_pieces(s: Seq<char>, i: int, cur: Seq<char>, acc: Seq<Seq<char>>) -> Seq<Seq<char>>
    decreases s.len() - i,
{
    if i >= s.len() || i < 0 {
        flush_piece(acc, cur)
    } else if s[i] == '/' {
        scan_pieces(s, i + 1, Seq::empty(), flush_piece(acc, cur))
    } else {
        scan_pieces(s, i + 1, cur.push(s[i]), acc)
    }
}

/// The components of a Unix path as `Path::components` yields them: a root
/// (written `/`) when the path starts with a separator, else a current-dir
/// component (written `.`) when its first piece is `.`; then the maximal
/// separator-free pieces other than empty and `.` ones.
pub open spec fn components(s: Seq<char>) -> Seq<Seq<char>> {
    let head: Seq<Seq<char>> = if s.len() > 0 && s[0] == '/' {
        seq![seq!['/']]
    } else if (s.len() == 1 && s[0] == '.') || (s.len() >= 2 && s[0] == '.' && s[1] == '/') {
        seq![seq!['.']]
    } else {
        Seq::empty()
    };
    head + scan_pieces(s, 0, Seq::empty(), Seq::empty())
}

/// `base` names a leading part of `path`, whole components only
/// (`Path::starts_with`).
pub open spec fn path_has_prefix(path: Seq<char>, base: Seq<char>) -> bool {
    let p = components(path);
    let b = components(base);
    b.len() <= p.len() && p.take(b.len() as int) == b
}

/// `v` holds, element by element, the character sequences of `t`.
pub open spec fn holds_seqs(v: Seq<Vec<char>>, t: Seq<Seq<char>>) -> bool {
    v.len() == t.len() && forall|i: int| 0 <= i < v.len() ==> #[trigger] v[i]@ == t[i]
}

fn component_list(s: &str) -> (res: Vec<Vec<char>>)
    ensures
        holds_seqs(res@, components(s@)),
{
    let cs = chars_of(s);
    let mut res: Vec<Vec<char>> = Vec::new();
    let n = cs.len();
    let ghost head: Seq<Seq<char>> = if s@.len() > 0 && s@[0] == '/' {
        seq![seq!['/']]
    } else if (s@.len() == 1 && s@[0] == '.') || (s@.len() >= 2 && s@[0] == '.' && s@[1] == '/') {
        seq![seq!['.']]
    } else {
        Seq::empty()
    };
    if n > 0 && cs[0] == '/' {
        let mut r: Vec<char> = Vec::new();
        r.push('/');
        res.push(r);
        assert(res@[0]@ =~= seq!['/']);
    } else if (n == 1 && cs[0] == '.') || (n >= 2 && cs[0] == '.' && cs[1] == '/') {
        let mut r: Vec<char> = Vec::new();
        r.push('.');
        res.push(r);
        assert(res@[0]@ =~= seq!['.']);
    }
    assert(holds_seqs(res@, head));
    let mut cur: Vec<char> = Vec::new();
    let mut i: usize = 0;
    let ghost mut acc: Seq<Seq<char>> = Seq::empty();
    assert(head + acc =~= head);
    while i < n
        invariant
            n == cs@.len(),
            cs@ == s@,
            i <= n,
            holds_seqs(res@, head + acc),
            scan_pieces(s@, i as int, cur@, acc) == scan_pieces(s@, 0, Seq::empty(), Seq::empty()),
        decreases n - i,
    {
        let c = cs[i];
        if c == '/' {
            let is_dot = cur.len() == 1 && cur[0] == '.';
            let ghost cv = cur@;
            if cur.len() > 0 && !is_dot {
                proof {
                    assert(!(cv =~= seq!['.']));
                }
                res.push(cur);
                proof {
                    acc = acc.push(cv);
                    assert(holds_seqs(res@, head + acc));
                }
            } else {
                proof {
                    if cv.len() != 0 {
                        assert(cv =~= seq!['.']);
                    }
                }
            }
            cur = Vec::new();
            assert(cur@ =~= Seq::<char>::empty());
        } else {
            cur.push(c);
        }
        i = i + 1;
    }
    let is_dot = cur.len() == 1 && cur[0] == '.';
    let ghost cv = cur@;
    if cur.len() > 0 && !is_dot {
        proof {
            assert(!(cv =~= seq!['.']));
        }
        res.push(cur);
        proof {
            acc = acc.push(cv);
            assert(holds_seqs(res@, head + acc));
        }
    } else {
        proof {
            if cv.len() != 0 {
                assert(cv =~= seq!['.']);
            }
        }
    }
    res
}

fn same_chars(a: &Vec<char>, b: &Vec<char>) -> (res: bool)
    ensures
        res == (a@ == b@),
{
    if a.len() != b.len() {
        return false;
    }
    let mut i: usize = 0;
    while i < a.len()
        invariant
            a@.len() == b@.len(),
            i <= a@.len(),
            forall|j: int| 0 <= j < i ==> a@[j] == b@[j],
        decreases a.len() - i,
    {
        if a[i] != b[i] {
            return false;
        }
        i = i + 1;
    }
    assert(a@ =~= b@);
    true
}

/// Whether `base` names a leading part of `path`, comparing whole components
/// (`Path::starts_with`).
pub fn path_starts_with(path: &str, base: &str) -> (res: bool)
    ensures
        res == path_has_prefix(path@, base@),
{
    let p = component_list(path);
    let b = component_list(base);
    if b.len() > p.len() {
        return false;
    }
    let mut i: usize = 0;
    while i < b.len()
        invariant
            b@.len() <= p@.len(),
            holds_seqs(p@, components(path@)),
            holds_seqs(b@, components(base@)),
            i <= b@.len(),
            forall|j: int| 0 <= j < i ==> components(path@)[j] == components(base@)[j],
        decreases b.len() - i,
    {
        if !same_chars(&p[i], &b[i]) {
            assert(components(path@).take(b@.len() as int)[i as int] != components(base@)[i as int]);
            return false;
        }
        i = i + 1;
    }
    assert(components(path@).take(b@.len() as int) =~= components(base@));
    true
}

/// `dir` with `name` appended as `PathBuf::push` does: an absolute `name`
/// replaces `dir`; otherwise a separator goes between them unless `dir` is
/// empty or already ends in one.
pub open spec fn path_join(dir: Seq<char>, name: Seq<char>) -> Seq<char> {
    if name.len() > 0 && name[0] == '/' {
        name
    } else if dir.len() > 0 && dir.last() != '/' {
        dir + seq!['/'] + name
    } else {
        dir + name
    }
}

/// `Path::join` on string paths.
pub fn join_path(dir: &str, name: &str) -> (res: String)
    ensures
        res@ == path_join(dir@, name@),
{
    let d = chars_of(dir);
    let n = chars_of(name);
    if n.len() > 0 && n[0] == '/' {
        return name.to_owned();
    }
    let mut s = dir.to_owned();
    if d.len() > 0 && d[d.len() - 1] != '/' {
        s.push('/');
    }
    s.append(name);
    s
}


/// The final component of a Unix path when it is a normal one (not the root,
/// `.` or `..`), as `Path::file_name` gives it; empty otherwise.
pub open spec fn file_name_of(s: Seq<char>) -> Seq<char> {
    let p = scan_pieces(s, 0, Seq::empty(), Seq::empty());
    if p.len() > 0 && p.last() != seq!['.', '.'] { p.last() } else { Seq::empty() }
}

/// A string of the given characters.
pub fn string_of(cs: &Vec<char>) -> (res: String)
    ensures
        res@ == cs@,
{
    let mut s = String::new();
    let mut i: usize = 0;
    while i < cs.len()
        invariant
            i <= cs@.len(),
            s@ == cs@.take(i as int),
        decreases cs.len() - i,
    {
        s.push(cs[i]);
        assert(s@ =~= cs@.take(i + 1));
        i = i + 1;
    }
    assert(cs@.take(cs@.len() as int) =~= cs@);
    s
}

/// The final normal component of a path (`Path::file_name`, or "" without one).
pub fn file_name(path: &str) -> (res: String)
    ensures
        res@ == file_name_of(path@),
{
    let c = component_list(path);
    let cs = chars_of(path);
    let n = cs.len();
    let head: usize = if n > 0 && cs[0] == '/' {
        1
    } else if (n == 1 && cs[0] == '.') || (n >= 2 && cs[0] == '.' && cs[1] == '/') {
        1
    } else {
        0
    };
    let ghost hd: Seq<Seq<char>> = if path@.len() > 0 && path@[0] == '/' {
        seq![seq!['/']]
    } else if (path@.len() == 1 && path@[0] == '.') || (path@.len() >= 2 && path@[0] == '.' && path@[1] == '/') {
        seq![seq!['.']]
    } else {
        Seq::empty()
    };
    let ghost p = scan_pieces(path@, 0, Seq::empty(), Seq::empty());
    assert(components(path@) == hd + p);
    assert(hd.len() == head);
    if c.len() > head {
        let last = &c[c.len() - 1];
        assert(components(path@)[components(path@).len() - 1] == p.last());
        let dots = last.len() == 2 && last[0] == '.' && last[1] == '.';
        if dots {
            assert(last@ =~= seq!['.', '.']);
            String::new()
        } else {
            assert(last@ != seq!['.', '.']) by {
                if last@ =~= seq!['.', '.'] {
                    assert(last@.len() == 2 && last@[0] == '.' && last@[1] == '.');
                }
            }
            string_of(last)
        }
    } else {
        String::new()
    }
}
} // verus!
