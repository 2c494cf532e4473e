//! Unix path handling: the file name and extension of a path, joining a
//! file name onto a directory, and telling image files apart.

use vstd::prelude::*;
use vstd::string::*;

verus! {

/// Index of the last occurrence of `c` in `s`, or -1 when `c` does not occur.
pub open spec fn last_index_of(s: Seq<char>, c: char) -> int
    decreases s.len(),
{
    if s.len() == 0 {
        -1
    } else if s.last() == c {
        s.len() - 1
    } else {
        last_index_of(s.drop_last(), c)
    }
}

pub proof fn lemma_last_index_of(s: Seq<char>, c: char)
    ensures
        -1 <= last_index_of(s, c) < s.len(),
        last_index_of(s, c) >= 0 ==> s[last_index_of(s, c)] == c,
        forall|j: int| last_index_of(s, c) < j < s.len() ==> s[j] != c,
    decreases s.len(),
{
    if s.len() > 0 && s.last() != c {
        lemma_last_index_of(s.drop_last(), c);
        assert forall|j: int| last_index_of(s, c) < j < s.len() implies s[j] != c by {
            if j < s.len() - 1 {
                assert(s[j] == s.drop_last()[j]);
            }
        }
    }
}

/// The component "." of a path.
pub open spec fn cur_dir() -> Seq<char> {
    seq!['.']
}

/// The component ".." of a path.
pub open spec fn parent_dir() -> Seq<char> {
    seq!['.', '.']
}

/// The last component of `p` that is neither empty nor ".": `/` separates
/// components, and empty and "." components are skipped.
pub open spec fn last_component(p: Seq<char>) -> Option<Seq<char>>
    decreases p.len(),
{
    if p.len() == 0 {
        None
    } else {
        let k = last_index_of(p, '/');
        let piece = p.subrange(k + 1, p.len() as int);
        if piece.len() > 0 && piece != cur_dir() {
            Some(piece)
        } else if k < 0 {
            None
        } else {
            proof {
                lemma_last_index_of(p, '/');
            }
            last_component(p.subrange(0, k))
        }
    }
}

/// The file name of a path: its last component, unless that is "..".
pub open spec fn spec_file_name(p: Seq<char>) -> Option<Seq<char>> {
    match last_component(p) {
        Some(c) => if c == parent_dir() {
            None
        } else {
            Some(c)
        },
        None => None,
    }
}

/// The extension of a file name: what follows its last '.', where that dot
/// is not its first character; ".." has none.
pub open spec fn name_extension(name: Seq<char>) -> Option<Seq<char>> {
    let k = last_index_of(name, '.');
    if name == parent_dir() || k <= 0 {
        None
    } else {
        Some(name.subrange(k + 1, name.len() as int))
    }
}

/// The extension of the file name of a path.
pub open spec fn spec_extension(p: Seq<char>) -> Option<Seq<char>> {
    match spec_file_name(p) {
        Some(n) => name_extension(n),
        None => None,
    }
}

pub open spec fn jpg() -> Seq<char> {
    seq!['j', 'p', 'g']
}

pub open spec fn png() -> Seq<char> {
    seq!['p', 'n', 'g']
}

/// A path names an image when its extension is "jpg" or "png".
pub open spec fn spec_is_image_path(p: Seq<char>) -> bool {
    spec_extension(p) == Some(jpg()) || spec_extension(p) == Some(png())
}

/// `base` joined with `name`: an absolute `name` replaces `base`; otherwise
/// a '/' goes between them unless `base` is empty or already ends with one.
pub open spec fn spec_join(base: Seq<char>, name: Seq<char>) -> Seq<char> {
    if name.len() > 0 && name[0] == '/' {
        name
    } else if base.len() > 0 && base.last() != '/' {
        base + seq!['/'] + name
    } else {
        base + name
    }
}

/// A file name that a path can end in: not empty, not "." or "..", and
/// holding no '/'.
pub open spec fn is_plain_name(n: Seq<char>) -> bool {
    &&& n.len() > 0
    &&& n != cur_dir()
    &&& n != parent_dir()
    &&& forall|j: int| 0 <= j < n.len() ==> n[j] != '/'
}

proof fn lemma_last_component_shape(p: Seq<char>)
    ensures
        last_component(p) matches Some(c) ==> {
            &&& c.len() > 0
            &&& c != cur_dir()
            &&& forall|j: int| 0 <= j < c.len() ==> c[j] != '/'
        },
    decreases p.len(),
{
    if p.len() > 0 {
        let k = last_index_of(p, '/');
        lemma_last_index_of(p, '/');
        let piece = p.subrange(k + 1, p.len() as int);
        if piece.len() > 0 && piece != cur_dir() {
            assert forall|j: int| 0 <= j < piece.len() implies piece[j] != '/' by {
                assert(piece[j] == p[k + 1 + j]);
            }
        } else if k >= 0 {
            lemma_last_component_shape(p.subrange(0, k));
        }
    }
}

/// A file name, when a path has one, is a plain name.
pub proof fn lemma_file_name_is_plain(p: Seq<char>)
    ensures
        spec_file_name(p) matches Some(n) ==> is_plain_name(n),
{
    lemma_last_component_shape(p);
}

proof fn lemma_last_index_of_append(a: Seq<char>, b: Seq<char>, c: char)
    requires
        forall|j: int| 0 <= j < b.len() ==> b[j] != c,
    ensures
        last_index_of(a + b, c) == last_index_of(a, c),
    decreases b.len(),
{
    if b.len() == 0 {
        assert(a + b =~= a);
    } else {
        assert((a + b).drop_last() =~= a + b.drop_last());
        assert((a + b).last() == b.last());
        lemma_last_index_of_append(a, b.drop_last(), c);
    }
}

/// Joining a plain name onto any directory gives a path whose file name is
/// that name.
pub proof fn lemma_file_name_of_join(base: Seq<char>, n: Seq<char>)
    requires
        is_plain_name(n),
    ensures
        spec_file_name(spec_join(base, n)) == Some(n),
{
    let x = if base.len() > 0 && base.last() != '/' {
        base + seq!['/']
    } else {
        base
    };
    let p = x + n;
    assert(spec_join(base, n) =~= p);
    lemma_last_index_of_append(x, n, '/');
    assert(last_index_of(x, '/') == x.len() - 1) by {
        if x.len() > 0 {
            assert(x.last() == '/');
        }
    }
    assert(p.subrange(x.len() as int, p.len() as int) =~= n);
}

/// A path names an image exactly when its extension is "jpg" or "png".
pub proof fn lemma_image_path_by_extension(p: Seq<char>)
    ensures
        spec_is_image_path(p) <==> (spec_extension(p) == Some(seq!['j', 'p', 'g']) || spec_extension(
            p,
        ) == Some(seq!['p', 'n', 'g'])),
{
}

/// The file `stem.ext` in any directory: its file name is `stem.ext`, its
/// extension is `ext` whatever characters the stem holds (dots and spaces
/// included), and it names an image exactly when `ext` is "jpg" or "png".
pub proof fn lemma_extension_of_file(dir: Seq<char>, stem: Seq<char>, ext: Seq<char>)
    requires
        stem.len() > 0,
        forall|j: int| 0 <= j < stem.len() ==> stem[j] != '/',
        forall|j: int| 0 <= j < ext.len() ==> ext[j] != '/' && ext[j] != '.',
        stem + seq!['.'] + ext != parent_dir(),
    ensures
        spec_file_name(spec_join(dir, stem + seq!['.'] + ext)) == Some(stem + seq!['.'] + ext),
        spec_extension(spec_join(dir, stem + seq!['.'] + ext)) == Some(ext),
        spec_is_image_path(spec_join(dir, stem + seq!['.'] + ext)) <==> (ext == seq!['j', 'p', 'g']
            || ext == seq!['p', 'n', 'g']),
{
    let head = stem + seq!['.'];
    let n = head + ext;
    assert(stem + seq!['.'] + ext == n);
    assert forall|j: int| 0 <= j < n.len() implies n[j] != '/' by {
        if j < stem.len() {
            assert(n[j] == stem[j]);
        } else if j > stem.len() {
            assert(n[j] == ext[j - stem.len() - 1]);
        }
    }
    assert(n.len() >= 2);
    assert(n != cur_dir()) by {
        if n == cur_dir() {
            assert(n.len() == 1);
        }
    }
    lemma_file_name_of_join(dir, n);
    lemma_last_index_of_append(head, ext, '.');
    assert(head.last() == '.');
    assert(last_index_of(head, '.') == stem.len());
    assert(n.subrange(stem.len() + 1 as int, n.len() as int) =~= ext);
}

/// Index of the last `c` in the first `end` characters of `s`.
fn last_index_before(s: &str, c: char, end: usize) -> (r: Option<usize>)
    requires
        end <= s@.len(),
    ensures
        match r {
            None => last_index_of(s@.subrange(0, end as int), c) == -1,
            Some(k) => k == last_index_of(s@.subrange(0, end as int), c),
        },
{
    let mut i = end;
    while i > 0
        invariant
            i <= end <= s@.len(),
            last_index_of(s@.subrange(0, end as int), c) == last_index_of(
                s@.subrange(0, i as int),
                c,
            ),
        decreases i,
    {
        let ch = s.get_char(i - 1);
        assert(s@.subrange(0, i as int).drop_last() =~= s@.subrange(0, i - 1));
        if ch == c {
            return Some(i - 1);
        }
        i = i - 1;
    }
    None
}

/// The file name of `path`, as `Path::file_name` gives it.
pub fn file_name(path: &str) -> (r: Option<&str>)
    ensures
        r is None <==> spec_file_name(path@) is None,
        r matches Some(n) ==> spec_file_name(path@) == Some(n@),
{
    let len = path.unicode_len();
    let mut end = len;
    assert(path@.subrange(0, len as int) =~= path@);
    loop
        invariant
            end <= len,
            len == path@.len(),
            last_component(path@) == last_component(path@.subrange(0, end as int)),
        decreases end,
    {
        let ghost prefix = path@.subrange(0, end as int);
        if end == 0 {
            return None;
        }
        let k = last_index_before(path, '/', end);
        proof {
            lemma_last_index_of(prefix, '/');
        }
        let start = match k {
            Some(k) => k + 1,
            None => 0,
        };
        let ghost piece = prefix.subrange(start as int, end as int);
        assert(piece =~= path@.subrange(start as int, end as int));
        let is_cur = end - start == 1 && path.get_char(start) == '.';
        assert(is_cur <==> piece == cur_dir()) by {
            if end - start == 1 {
                assert(piece[0] == path@[start as int]);
                if piece[0] == '.' {
                    assert(piece =~= cur_dir());
                }
            }
        }
        if end - start > 0 && !is_cur {
            let is_parent = end - start == 2 && path.get_char(start) == '.' && path.get_char(
                start + 1,
            ) == '.';
            assert(is_parent <==> piece == parent_dir()) by {
                if end - start == 2 {
                    assert(piece[0] == path@[start as int]);
                    assert(piece[1] == path@[start + 1]);
                    if piece[0] == '.' && piece[1] == '.' {
                        assert(piece =~= parent_dir());
                    }
                }
            }
            if is_parent {
                return None;
            }
            return Some(path.substring_char(start, end));
        }
        match k {
            None => {
                return None;
            },
            Some(k) => {
                assert(prefix.subrange(0, k as int) =~= path@.subrange(0, k as int));
                end = k;
            },
        }
    }
}

/// Whether the `n` characters of `s` from `start` on are those of `t`.
fn chars_match(s: &str, start: usize, t: &str) -> (r: bool)
    requires
        start <= s@.len(),
    ensures
        r <==> (start + t@.len() <= s@.len() && s@.subrange(
            start as int,
            start + t@.len(),
        ) == t@),
{
    let n = t.unicode_len();
    let len = s.unicode_len();
    if n > len - start {
        return false;
    }
    let mut i: usize = 0;
    while i < n
        invariant
            i <= n,
            n == t@.len(),
            len == s@.len(),
            start + n <= len,
            forall|j: int| 0 <= j < i ==> s@[start + j] == t@[j],
        decreases n - i,
    {
        if s.get_char(start + i) != t.get_char(i) {
            assert(s@.subrange(start as int, start + n)[i as int] != t@[i as int]);
            return false;
        }
        i = i + 1;
    }
    assert(s@.subrange(start as int, start + n) =~= t@);
    true
}

/// The extension of the file name of `path`, as `Path::extension` gives it.
pub fn extension(path: &str) -> (r: Option<&str>)
    ensures
        r is None <==> spec_extension(path@) is None,
        r matches Some(e) ==> spec_extension(path@) == Some(e@),
{
    match file_name(path) {
        None => None,
        Some(name) => {
            let len = name.unicode_len();
            let k = last_index_before(name, '.', len);
            assert(name@.subrange(0, len as int) =~= name@);
            proof {
                lemma_last_index_of(name@, '.');
            }
            let is_parent = len == 2 && name.get_char(0) == '.' && name.get_char(1) == '.';
            assert(is_parent <==> name@ == parent_dir()) by {
                if len == 2 && name@[0] == '.' && name@[1] == '.' {
                    assert(name@ =~= parent_dir());
                }
            }
            if is_parent {
                return None;
            }
            match k {
                None => None,
                Some(k) => {
                    if k == 0 {
                        None
                    } else {
                        Some(name.substring_char(k + 1, len))
                    }
                },
            }
        },
    }
}

/// Whether `path` names an image: its extension is "jpg" or "png".
pub fn is_image_path(path: &str) -> (r: bool)
    ensures
        r == spec_is_image_path(path@),
        r <==> (spec_extension(path@) == Some(seq!['j', 'p', 'g']) || spec_extension(path@) == Some(
            seq!['p', 'n', 'g'],
        )),
{
    match extension(path) {
        None => false,
        Some(e) => {
            proof {
                reveal_strlit("jpg");
                reveal_strlit("png");
            }
            let is_jpg = chars_match(e, 0, "jpg");
            let is_png = chars_match(e, 0, "png");
            assert(e@.subrange(0, e@.len() as int) =~= e@);
            assert("jpg"@ =~= jpg());
            assert("png"@ =~= png());
            let r = (is_jpg && e.unicode_len() == 3) || (is_png && e.unicode_len() == 3);
            assert(r ==> spec_is_image_path(path@));
            assert(spec_is_image_path(path@) ==> r) by {
                if e@ == jpg() {
                    assert(e@.subrange(0, 3) =~= e@);
                }
                if e@ == png() {
                    assert(e@.subrange(0, 3) =~= e@);
                }
            }
            r
        },
    }
}

/// `base` joined with `name`, as `Path::join` gives it.
pub fn join(base: &str, name: &str) -> (r: String)
    ensures
        r@ == spec_join(base@, name@),
{
    proof {
        reveal_strlit("/");
    }
    if name.unicode_len() > 0 && name.get_char(0) == '/' {
        return name.to_owned();
    }
    let blen = base.unicode_len();
    let mut r = base.to_owned();
    if blen > 0 && base.get_char(blen - 1) != '/' {
        r.append("/");
        assert("/"@ =~= seq!['/']);
    }
    r.append(name);
    r
}

} // verus!
