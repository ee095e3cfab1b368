//! Character- and string-level helpers: ASCII case folding, string equality,
//! extension extraction from a file name, and path-component splitting.
//!
//! Paths are plain strings split on `'/'`. A file name's extension is the part
//! after the last `'.'`, provided that dot is not the leading character (a
//! leading dot marks a hidden file, not an extension).

use vstd::prelude::*;

verus! {

/// ASCII lowercasing of one character: 'A'..='Z' map to 'a'..='z', every
/// other character is unchanged.
pub open spec fn lower_char(c: char) -> char {
    if 'A' <= c && c <= 'Z' {
        ((c as int) + 32) as char
    } else {
        c
    }
}

/// ASCII lowercasing of a character sequence, pointwise.
pub open spec fn lower(s: Seq<char>) -> Seq<char> {
    s.map_values(|c: char| lower_char(c))
}

/// Two strings are equal up to ASCII case.
pub open spec fn case_eq(a: Seq<char>, b: Seq<char>) -> bool {
    lower(a) == lower(b)
}

/// Lowering twice is the same as lowering once.
pub proof fn lemma_lower_idempotent(s: Seq<char>)
    ensures
        lower(lower(s)) == lower(s),
{
    assert forall|i: int| 0 <= i < s.len() implies lower(lower(s))[i] == lower(s)[i] by {
        assert(lower(s)[i] == lower_char(s[i]));
    }
    assert(lower(lower(s)) =~= lower(s));
}

/// Exec counterpart of `lower_char`.
pub fn lower_char_exec(c: char) -> (r: char)
    ensures
        r == lower_char(c),
{
    match c {
        'A' => 'a',
        'B' => 'b',
        'C' => 'c',
        'D' => 'd',
        'E' => 'e',
        'F' => 'f',
        'G' => 'g',
        'H' => 'h',
        'I' => 'i',
        'J' => 'j',
        'K' => 'k',
        'L' => 'l',
        'M' => 'm',
        'N' => 'n',
        'O' => 'o',
        'P' => 'p',
        'Q' => 'q',
        'R' => 'r',
        'S' => 's',
        'T' => 't',
        'U' => 'u',
        'V' => 'v',
        'W' => 'w',
        'X' => 'x',
        'Y' => 'y',
        'Z' => 'z',
        _ => c,
    }
}

/// Exec string equality over the character views.
pub fn str_eq(a: &str, b: &str) -> (r: bool)
    ensures
        r == (a@ == b@),
{
    let alen = a.unicode_len();
    let blen = b.unicode_len();
    if alen != blen {
        return false;
    }
    let mut i: usize = 0;
    while i < alen
        invariant
            i <= alen,
            alen == a@.len(),
            alen == b@.len(),
            forall|j: int| 0 <= j < i ==> a@[j] == b@[j],
        decreases alen - i,
    {
        if a.get_char(i) != b.get_char(i) {
            return false;
        }
        i += 1;
    }
    proof {
        assert(a@ =~= b@);
    }
    true
}

/// Exec string equality up to ASCII case.
pub fn str_case_eq(a: &str, b: &str) -> (r: bool)
    ensures
        r == case_eq(a@, b@),
{
    let alen = a.unicode_len();
    let blen = b.unicode_len();
    if alen != blen {
        proof {
            assert(lower(a@).len() != lower(b@).len());
        }
        return false;
    }
    let mut i: usize = 0;
    while i < alen
        invariant
            i <= alen,
            alen == a@.len(),
            alen == b@.len(),
            forall|j: int| 0 <= j < i ==> lower_char(a@[j]) == lower_char(b@[j]),
        decreases alen - i,
    {
        let ca = lower_char_exec(a.get_char(i));
        let cb = lower_char_exec(b.get_char(i));
        if ca != cb {
            proof {
                assert(lower(a@)[i as int] == lower_char(a@[i as int]));
                assert(lower(b@)[i as int] == lower_char(b@[i as int]));
            }
            return false;
        }
        i += 1;
    }
    proof {
        assert forall|j: int| 0 <= j < alen implies lower(a@)[j] == lower(b@)[j] by {
            assert(lower(a@)[j] == lower_char(a@[j]));
            assert(lower(b@)[j] == lower_char(b@[j]));
        }
        assert(lower(a@) =~= lower(b@));
    }
    true
}

/// The extension of a file name: the characters after the last `'.'`, where a
/// dot in the leading position does not count as a separator. A name without
/// such a dot has no extension.
pub open spec fn spec_extension(s: Seq<char>) -> Option<Seq<char>>
    decreases s.len(),
{
    if s.len() <= 1 {
        None
    } else if s[s.len() - 1] == '.' {
        Some(Seq::empty())
    } else {
        match spec_extension(s.drop_last()) {
            Some(e) => Some(e.push(s.last())),
            None => None,
        }
    }
}

proof fn lemma_extension_at_dot(s: Seq<char>, j: int)
    requires
        1 <= j < s.len(),
        s[j] == '.',
        forall|k: int| j < k < s.len() ==> s[k] != '.',
    ensures
        spec_extension(s) == Some(s.subrange(j + 1, s.len() as int)),
    decreases s.len(),
{
    if j == s.len() - 1 {
        assert(s.subrange(j + 1, s.len() as int) =~= Seq::<char>::empty());
    } else {
        let t = s.drop_last();
        assert(t[j] == '.');
        assert(forall|k: int| j < k < t.len() ==> t[k] != '.');
        lemma_extension_at_dot(t, j);
        assert(t.subrange(j + 1, t.len() as int).push(s.last()) =~= s.subrange(
            j + 1,
            s.len() as int,
        ));
    }
}

proof fn lemma_extension_none(s: Seq<char>)
    requires
        forall|k: int| 1 <= k < s.len() ==> s[k] != '.',
    ensures
        spec_extension(s) is None,
    decreases s.len(),
{
    if s.len() > 1 {
        let t = s.drop_last();
        assert(forall|k: int| 1 <= k < t.len() ==> t[k] != '.');
        lemma_extension_none(t);
    }
}

/// Lowercasing a file name lowercases its extension: case folding moves no
/// separator, so the split happens at the same place.
pub proof fn lemma_extension_of_lower(s: Seq<char>)
    ensures
        spec_extension(lower(s)) == match spec_extension(s) {
            Some(e) => Some(lower(e)),
            None => None::<Seq<char>>,
        },
    decreases s.len(),
{
    if s.len() <= 1 {
    } else {
        let c = s[s.len() - 1];
        assert(lower(s)[s.len() - 1] == lower_char(c));
        assert(lower_char(c) == '.' <==> c == '.') by {
            if 'A' <= c && c <= 'Z' {
                assert(((c as int) + 32) as char != '.');
            }
        }
        lemma_extension_of_lower(s.drop_last());
        assert(lower(s).drop_last() =~= lower(s.drop_last()));
        if c == '.' {
            assert(lower(Seq::<char>::empty()) =~= Seq::<char>::empty());
        } else {
            match spec_extension(s.drop_last()) {
                Some(e) => {
                    assert(lower(e).push(lower_char(s.last())) =~= lower(e.push(s.last())));
                },
                None => {},
            }
        }
    }
}

/// Extracts the extension of a file name, if it has one.
pub fn extension_of<'a>(name: &'a str) -> (r: Option<&'a str>)
    ensures
        match r {
            Some(e) => spec_extension(name@) == Some(e@),
            None => spec_extension(name@) is None,
        },
{
    let n = name.unicode_len();
    let mut i: usize = n;
    while i > 1
        invariant
            i <= n,
            n == name@.len(),
            forall|k: int| i <= k < n ==> name@[k] != '.',
        decreases i,
    {
        if name.get_char(i - 1) == '.' {
            let e = name.substring_char(i, n);
            proof {
                lemma_extension_at_dot(name@, i - 1);
            }
            return Some(e);
        }
        i -= 1;
    }
    proof {
        lemma_extension_none(name@);
    }
    None
}

/// The final component of a path: the characters after the last `'/'`, or the
/// whole string when it holds no `'/'`.
pub open spec fn spec_base_name(s: Seq<char>) -> Seq<char>
    decreases s.len(),
{
    if s.len() == 0 {
        Seq::empty()
    } else if s.last() == '/' {
        Seq::empty()
    } else {
        spec_base_name(s.drop_last()).push(s.last())
    }
}

/// The directory part of a path: the characters before the last `'/'`, or
/// nothing when the path holds no `'/'`.
pub open spec fn spec_parent_dir(s: Seq<char>) -> Option<Seq<char>>
    decreases s.len(),
{
    if s.len() == 0 {
        None
    } else if s.last() == '/' {
        Some(s.drop_last())
    } else {
        spec_parent_dir(s.drop_last())
    }
}

/// The name of the folder a path points into: the final component of its
/// directory part. Nothing when the path has no directory part or that
/// component is empty.
pub open spec fn spec_folder_of(dest: Seq<char>) -> Option<Seq<char>> {
    match spec_parent_dir(dest) {
        Some(p) => {
            let b = spec_base_name(p);
            if b.len() == 0 {
                None
            } else {
                Some(b)
            }
        },
        None => None,
    }
}

proof fn lemma_base_name_after_slash(s: Seq<char>, j: int)
    requires
        0 <= j < s.len(),
        s[j] == '/',
        forall|k: int| j < k < s.len() ==> s[k] != '/',
    ensures
        spec_base_name(s) == s.subrange(j + 1, s.len() as int),
    decreases s.len(),
{
    if j == s.len() - 1 {
        assert(s.subrange(j + 1, s.len() as int) =~= Seq::<char>::empty());
    } else {
        let t = s.drop_last();
        assert(t[j] == '/');
        lemma_base_name_after_slash(t, j);
        assert(t.subrange(j + 1, t.len() as int).push(s.last()) =~= s.subrange(
            j + 1,
            s.len() as int,
        ));
    }
}

proof fn lemma_base_name_no_slash(s: Seq<char>)
    requires
        forall|k: int| 0 <= k < s.len() ==> s[k] != '/',
    ensures
        spec_base_name(s) == s,
    decreases s.len(),
{
    if s.len() > 0 {
        let t = s.drop_last();
        lemma_base_name_no_slash(t);
        assert(t.push(s.last()) =~= s);
    }
}

proof fn lemma_parent_dir_at_slash(s: Seq<char>, j: int)
    requires
        0 <= j < s.len(),
        s[j] == '/',
        forall|k: int| j < k < s.len() ==> s[k] != '/',
    ensures
        spec_parent_dir(s) == Some(s.subrange(0, j)),
    decreases s.len(),
{
    if j == s.len() - 1 {
        assert(s.drop_last() =~= s.subrange(0, j));
    } else {
        let t = s.drop_last();
        assert(t[j] == '/');
        lemma_parent_dir_at_slash(t, j);
    }
}

proof fn lemma_parent_dir_no_slash(s: Seq<char>)
    requires
        forall|k: int| 0 <= k < s.len() ==> s[k] != '/',
    ensures
        spec_parent_dir(s) is None,
    decreases s.len(),
{
    if s.len() > 0 {
        lemma_parent_dir_no_slash(s.drop_last());
    }
}

/// Extracts the final component of a path.
pub fn base_name_of<'a>(path: &'a str) -> (r: &'a str)
    ensures
        r@ == spec_base_name(path@),
{
    let n = path.unicode_len();
    let mut i: usize = n;
    while i > 0
        invariant
            i <= n,
            n == path@.len(),
            forall|k: int| i <= k < n ==> path@[k] != '/',
        decreases i,
    {
        if path.get_char(i - 1) == '/' {
            let b = path.substring_char(i, n);
            proof {
                lemma_base_name_after_slash(path@, i - 1);
            }
            return b;
        }
        i -= 1;
    }
    proof {
        lemma_base_name_no_slash(path@);
    }
    path
}

/// Extracts the directory part of a path, if it has one.
pub fn parent_dir_of<'a>(path: &'a str) -> (r: Option<&'a str>)
    ensures
        match r {
            Some(p) => spec_parent_dir(path@) == Some(p@),
            None => spec_parent_dir(path@) is None,
        },
{
    let n = path.unicode_len();
    let mut i: usize = n;
    while i > 0
        invariant
            i <= n,
            n == path@.len(),
            forall|k: int| i <= k < n ==> path@[k] != '/',
        decreases i,
    {
        if path.get_char(i - 1) == '/' {
            let p = path.substring_char(0, i - 1);
            proof {
                lemma_parent_dir_at_slash(path@, i - 1);
            }
            return Some(p);
        }
        i -= 1;
    }
    proof {
        lemma_parent_dir_no_slash(path@);
    }
    None
}

/// Extracts the folder-name component a path points into, if it has one.
pub fn folder_of<'a>(dest: &'a str) -> (r: Option<&'a str>)
    ensures
        match r {
            Some(f) => spec_folder_of(dest@) == Some(f@),
            None => spec_folder_of(dest@) is None,
        },
{
    match parent_dir_of(dest) {
        Some(p) => {
            let b = base_name_of(p);
            if b.unicode_len() == 0 {
                None
            } else {
                Some(b)
            }
        },
        None => None,
    }
}

} // verus!
