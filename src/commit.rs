//! Commit metadata read from `git log -1 --pretty=format:%H%n%s%n%D`: the
//! hash, the subject, and the ref names, among which `HEAD -> <branch>`.
use vstd::prelude::*;
use crate::text::{equals, push_char};

verus! {

/// Characters of Unicode's White_Space property, which `str::trim` removes.
pub open spec fn white_space(c: char) -> bool {
    let u = c as u32;
    ||| 0x9 <= u <= 0xD
    ||| u == 0x20 || u == 0x85 || u == 0xA0 || u == 0x1680
    ||| 0x2000 <= u <= 0x200A
    ||| u == 0x2028 || u == 0x2029 || u == 0x202F || u == 0x205F || u == 0x3000
}

fn is_white_space(c: char) -> (r: bool)
    ensures
        r == white_space(c),
{
    let u = c as u32;
    (0x9 <= u && u <= 0xD) || u == 0x20 || u == 0x85 || u == 0xA0 || u == 0x1680 || (0x2000 <= u
        && u <= 0x200A) || u == 0x2028 || u == 0x2029 || u == 0x202F || u == 0x205F || u == 0x3000
}

/// `s` without its leading white space.
pub open spec fn trim_start_of(s: Seq<char>) -> Seq<char>
    decreases s.len(),
{
    if s.len() > 0 && white_space(s[0]) {
        trim_start_of(s.drop_first())
    } else {
        s
    }
}

/// `s` without its trailing white space.
pub open spec fn trim_end_of(s: Seq<char>) -> Seq<char>
    decreases s.len(),
{
    if s.len() > 0 && white_space(s.last()) {
        trim_end_of(s.drop_last())
    } else {
        s
    }
}

/// `s` without leading and trailing white space, as `str::trim` gives it.
pub open spec fn trim_of(s: Seq<char>) -> Seq<char> {
    trim_end_of(trim_start_of(s))
}

proof fn lemma_trim_start_at(s: Seq<char>, i: int)
    requires
        0 <= i <= s.len(),
        forall|j: int| 0 <= j < i ==> white_space(#[trigger] s[j]),
        i == s.len() || !white_space(s[i]),
    ensures
        trim_start_of(s) == s.subrange(i, s.len() as int),
    decreases i,
{
    if i == 0 {
        assert(s.subrange(0, s.len() as int) =~= s);
    } else {
        let t = s.drop_first();
        assert forall|j: int| 0 <= j < i - 1 implies white_space(#[trigger] t[j]) by {
            assert(t[j] == s[j + 1]);
        }
        lemma_trim_start_at(t, i - 1);
        assert(t.subrange(i - 1, t.len() as int) =~= s.subrange(i, s.len() as int));
    }
}

proof fn lemma_trim_end_at(s: Seq<char>, e: int)
    requires
        0 <= e <= s.len(),
        forall|j: int| e <= j < s.len() ==> white_space(#[trigger] s[j]),
        e == 0 || !white_space(s[e - 1]),
    ensures
        trim_end_of(s) == s.subrange(0, e),
    decreases s.len() - e,
{
    if e == s.len() {
        assert(s.subrange(0, e) =~= s);
    } else {
        let t = s.drop_last();
        assert forall|j: int| e <= j < t.len() implies white_space(#[trigger] t[j]) by {
            assert(t[j] == s[j]);
        }
        if e > 0 {
            assert(t[e - 1] == s[e - 1]);
        }
        lemma_trim_end_at(t, e);
        assert(t.subrange(0, e) =~= s.subrange(0, e));
    }
}

/// `s` without leading and trailing white space.
pub fn trim(s: &str) -> (r: String)
    ensures
        r@ == trim_of(s@),
{
    let n = s.unicode_len();
    let mut i: usize = 0;
    while i < n && is_white_space(s.get_char(i))
        invariant
            0 <= i <= n,
            n == s@.len(),
            forall|j: int| 0 <= j < i ==> white_space(#[trigger] s@[j]),
        decreases n - i,
    {
        i = i + 1;
    }
    let mut e: usize = n;
    while e > i && is_white_space(s.get_char(e - 1))
        invariant
            i <= e <= n,
            n == s@.len(),
            forall|j: int| e <= j < n ==> white_space(#[trigger] s@[j]),
        decreases e,
    {
        e = e - 1;
    }
    proof {
        lemma_trim_start_at(s@, i as int);
        let t = s@.subrange(i as int, n as int);
        assert forall|j: int| e - i <= j < t.len() implies white_space(#[trigger] t[j]) by {
            assert(t[j] == s@[i + j]);
        }
        if e > i {
            assert(t[e - i - 1] == s@[e - 1]);
        }
        lemma_trim_end_at(t, e - i);
        assert(t.subrange(0, e - i) =~= s@.subrange(i as int, e as int));
    }
    s.substring_char(i, e).to_owned()
}

/// The first position at or after `from` where `pat` occurs in `s`.
pub open spec fn find_from(s: Seq<char>, pat: Seq<char>, from: int) -> Option<int>
    decreases s.len() + 1 - from,
{
    if from < 0 || from + pat.len() > s.len() {
        None
    } else if s.subrange(from, from + pat.len()) == pat {
        Some(from)
    } else {
        find_from(s, pat, from + 1)
    }
}

/// The pieces of `s` between occurrences of `c`, as `str::split` gives them.
pub open spec fn split_at_char(s: Seq<char>, c: char) -> Seq<Seq<char>>
    decreases s.len(),
{
    if s.len() == 0 {
        seq![Seq::empty()]
    } else {
        let p = split_at_char(s.drop_last(), c);
        if s.last() == c {
            p.push(Seq::empty())
        } else {
            p.update(p.len() - 1, p.last().push(s.last()))
        }
    }
}

pub open spec fn drop_cr(line: Seq<char>) -> Seq<char> {
    if line.len() > 0 && line.last() == '\r' {
        line.drop_last()
    } else {
        line
    }
}

/// The lines of `s`, as `str::lines` gives them: split at `\n`, with one
/// `\r` before a `\n` dropped, and no empty line after a final `\n`.
pub open spec fn lines_of(s: Seq<char>) -> Seq<Seq<char>> {
    let pieces = split_at_char(s, '\n');
    let n = if s.len() == 0 {
        0
    } else if s.last() == '\n' {
        pieces.len() - 1
    } else {
        pieces.len() as int
    };
    Seq::new(n as nat, |i: int| if i < pieces.len() - 1 { drop_cr(pieces[i]) } else { pieces[i] })
}

pub open spec fn contains(s: Seq<char>, pat: Seq<char>) -> bool {
    find_from(s, pat, 0) is Some
}

/// The first of `pieces` from index `k` on that contains `pat`.
pub open spec fn first_containing(pieces: Seq<Seq<char>>, pat: Seq<char>, k: int) -> Option<Seq<char>>
    decreases pieces.len() - k,
{
    if k < 0 || k >= pieces.len() {
        None
    } else if contains(pieces[k], pat) {
        Some(pieces[k])
    } else {
        first_containing(pieces, pat, k + 1)
    }
}

/// The text after the first `->` of `piece`, up to the next `->`.
pub open spec fn after_arrow(piece: Seq<char>) -> Option<Seq<char>> {
    match find_from(piece, "->"@, 0) {
        Some(i) => {
            let rest = piece.subrange(i + 2, piece.len() as int);
            match find_from(rest, "->"@, 0) {
                Some(j) => Some(rest.subrange(0, j)),
                None => Some(rest),
            }
        },
        None => None,
    }
}

/// The branch a ref-names line shows as checked out: in the first
/// comma-separated piece holding `HEAD ->`, the text after its first `->`
/// (up to a second one), trimmed.
pub open spec fn head_branch_of(refs: Seq<char>) -> Option<Seq<char>> {
    match first_containing(split_at_char(refs, ','), "HEAD ->"@, 0) {
        Some(piece) => match after_arrow(piece) {
            Some(b) => Some(trim_of(b)),
            None => None,
        },
        None => None,
    }
}

pub open spec fn line_or(lines: Seq<Seq<char>>, k: int, default: Seq<char>) -> Seq<char> {
    if 0 <= k < lines.len() {
        lines[k]
    } else {
        default
    }
}

/// Commit metadata of the built tree.
pub struct CommitInfo {
    pub hash: String,
    pub message: String,
    pub branch: String,
}

fn find(s: &str, pat: &str, from: usize) -> (r: Option<usize>)
    requires
        from <= s@.len(),
    ensures
        r matches Some(i) ==> find_from(s@, pat@, from as int) == Some(i as int) && i + pat@.len() <= s@.len(),
        r is None ==> find_from(s@, pat@, from as int) is None,
{
    let n = s.unicode_len();
    let m = pat.unicode_len();
    if m == 0 {
        assert(s@.subrange(from as int, from as int) =~= pat@);
        return Some(from);
    }
    let mut i: usize = from;
    while m <= n - i
        invariant
            from <= i <= n,
            n == s@.len(),
            m == pat@.len(),
            m >= 1,
            find_from(s@, pat@, i as int) == find_from(s@, pat@, from as int),
        decreases n + 1 - i,
    {
        if equals(s.substring_char(i, i + m), pat) {
            return Some(i);
        }
        i = i + 1;
    }
    None
}

proof fn lemma_split_len(s: Seq<char>, c: char)
    ensures
        split_at_char(s, c).len() >= 1,
    decreases s.len(),
{
    if s.len() > 0 {
        lemma_split_len(s.drop_last(), c);
    }
}

/// The pieces of `s` between occurrences of `c`.
fn split_char(s: &str, c: char) -> (r: Vec<String>)
    ensures
        r@.len() == split_at_char(s@, c).len(),
        forall|i: int| 0 <= i < r@.len() ==> (#[trigger] r@[i])@ == split_at_char(s@, c)[i],
{
    let n = s.unicode_len();
    let mut done: Vec<String> = Vec::new();
    let mut cur = String::new();
    let mut i: usize = 0;
    while i < n
        invariant
            0 <= i <= n,
            n == s@.len(),
            done@.len() + 1 == split_at_char(s@.subrange(0, i as int), c).len(),
            forall|k: int| 0 <= k < done@.len() ==> (#[trigger] done@[k])@ == split_at_char(
                s@.subrange(0, i as int),
                c,
            )[k],
            cur@ == split_at_char(s@.subrange(0, i as int), c).last(),
        decreases n - i,
    {
        let ch = s.get_char(i);
        proof {
            let next = s@.subrange(0, i + 1);
            assert(next.drop_last() =~= s@.subrange(0, i as int));
            assert(next.last() == ch);
            lemma_split_len(s@.subrange(0, i as int), c);
        }
        if ch == c {
            done.push(cur);
            cur = String::new();
        } else {
            push_char(&mut cur, ch);
        }
        i = i + 1;
    }
    assert(s@.subrange(0, n as int) =~= s@);
    done.push(cur);
    done
}

impl CommitInfo {
    /// Reads the hash, the subject and the checked-out branch from the three
    /// lines of the log; a missing hash or branch reads `unknown`, a missing
    /// subject `no commit message`.
    pub fn from_log(log: &str) -> (r: CommitInfo)
        ensures
            r.hash@ == line_or(lines_of(log@), 0, "unknown"@),
            r.message@ == line_or(lines_of(log@), 1, "no commit message"@),
            r.branch@ == match head_branch_of(line_or(lines_of(log@), 2, Seq::empty())) {
                Some(b) => b,
                None => "unknown"@,
            },
    {
        let pieces = split_char(log, '\n');
        let n = log.unicode_len();
        let count: usize = if n == 0 {
            0
        } else if log.get_char(n - 1) == '\n' {
            pieces.len() - 1
        } else {
            pieces.len()
        };
        proof {
            lemma_split_len(log@, '\n');
        }
        let hash = Self::line(&pieces, count, 0, "unknown");
        let message = Self::line(&pieces, count, 1, "no commit message");
        let refs = Self::line(&pieces, count, 2, "");
        proof {
            reveal_strlit("");
            assert(""@ =~= Seq::<char>::empty());
        }
        let branch = match head_branch(refs.as_str()) {
            Some(b) => b,
            None => "unknown".to_owned(),
        };
        CommitInfo { hash, message, branch }
    }

    fn line(pieces: &Vec<String>, count: usize, k: usize, default: &str) -> (r: String)
        requires
            1 <= pieces@.len(),
            count <= pieces@.len(),
        ensures
            r@ == (if k < count {
                if k < pieces@.len() - 1 {
                    drop_cr(pieces@[k as int]@)
                } else {
                    pieces@[k as int]@
                }
            } else {
                default@
            }),
    {
        if k < count {
            let p = &pieces[k];
            let m = p.as_str().unicode_len();
            if k < pieces.len() - 1 && m > 0 && p.as_str().get_char(m - 1) == '\r' {
                p.as_str().substring_char(0, m - 1).to_owned()
            } else {
                proof {
                    assert(p@.subrange(0, m as int) =~= p@);
                }
                p.clone()
            }
        } else {
            default.to_owned()
        }
    }
}

/// See [`head_branch_of`].
pub fn head_branch(refs: &str) -> (r: Option<String>)
    ensures
        opt_seq(r) == head_branch_of(refs@),
{
    let pieces = split_char(refs, ',');
    let mut k: usize = 0;
    while k < pieces.len()
        invariant
            0 <= k <= pieces@.len(),
            pieces@.len() == split_at_char(refs@, ',').len(),
            forall|i: int| 0 <= i < pieces@.len() ==> (#[trigger] pieces@[i])@ == split_at_char(refs@, ',')[i],
            first_containing(split_at_char(refs@, ','), "HEAD ->"@, k as int) == first_containing(
                split_at_char(refs@, ','),
                "HEAD ->"@,
                0,
            ),
        decreases pieces@.len() - k,
    {
        let piece = pieces[k].as_str();
        if find(piece, "HEAD ->", 0).is_some() {
            return match find(piece, "->", 0) {
                Some(i) => {
                    let m = piece.unicode_len();
                    proof {
                        reveal_strlit("->");
                    }
                    let rest = piece.substring_char(i + 2, m);
                    let b = match find(rest, "->", 0) {
                        Some(j) => rest.substring_char(0, j),
                        None => rest,
                    };
                    Some(trim(b))
                },
                None => None,
            };
        }
        k = k + 1;
    }
    None
}

pub open spec fn opt_seq(o: Option<String>) -> Option<Seq<char>> {
    match o {
        Some(s) => Some(s@),
        None => None,
    }
}

} // verus!
