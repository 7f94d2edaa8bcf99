//! Text helpers shared by the path model and the target resolution:
//! comparing strings, splitting a file name at its last dot, and picking a
//! field out of a dash-separated name.

use vstd::prelude::*;
use vstd::string::*;
use vstd::utf8::*;

verus! {

/// Index of the last `.` in `s`, or -1 when `s` holds none.
pub open spec fn last_dot(s: Seq<char>) -> int
    decreases s.len(),
{
    if s.len() == 0 {
        -1
    } else if s.last() == '.' {
        s.len() - 1
    } else {
        last_dot(s.drop_last())
    }
}

/// The name of the parent directory entry, which never has a stem or an
/// extension of its own.
pub open spec fn dot_dot() -> Seq<char> {
    seq!['.', '.']
}

/// Whether a file name splits into a stem and an extension: it is not
/// `..`, it holds a dot, and its last dot is not its first character.
pub open spec fn splits_at_dot(name: Seq<char>) -> bool {
    name != dot_dot() && last_dot(name) > 0
}

/// The extension of a file name: what follows its last dot. A name without
/// a dot, or whose only dot leads it, has none.
pub open spec fn name_extension(name: Seq<char>) -> Option<Seq<char>> {
    if splits_at_dot(name) {
        Some(name.skip(last_dot(name) + 1))
    } else {
        None
    }
}

/// The stem of a file name: what precedes its last dot, or the whole name
/// where it has no extension.
pub open spec fn name_stem(name: Seq<char>) -> Seq<char> {
    if splits_at_dot(name) {
        name.take(last_dot(name))
    } else {
        name
    }
}

/// A file name with its extension replaced by `extension`. An empty
/// `extension` leaves the bare stem.
pub open spec fn name_with_extension(name: Seq<char>, extension: Seq<char>) -> Seq<char> {
    if extension.len() == 0 {
        name_stem(name)
    } else {
        name_stem(name) + seq!['.'] + extension
    }
}

/// Index of the first `-` in `s`, or `s.len()` when `s` holds none.
pub open spec fn first_dash(s: Seq<char>) -> int
    decreases s.len(),
{
    if s.len() == 0 {
        0
    } else if s.first() == '-' {
        0
    } else {
        1 + first_dash(s.drop_first())
    }
}

/// The `n`-th field (from 0) of `s` split at every `-`, if `s` has that
/// many fields. A field may be empty.
pub open spec fn dash_field(s: Seq<char>, n: nat) -> Option<Seq<char>>
    decreases n,
{
    let d = first_dash(s);
    if n == 0 {
        Some(s.take(d))
    } else if d >= s.len() {
        None
    } else {
        dash_field(s.skip(d + 1), (n - 1) as nat)
    }
}

/// `last_dot` is -1 or the index of a dot after which no dot follows.
pub proof fn lemma_last_dot(s: Seq<char>)
    ensures
        -1 <= last_dot(s) < s.len(),
        last_dot(s) >= 0 ==> s[last_dot(s)] == '.',
        forall|k: int| last_dot(s) < k < s.len() ==> s[k] != '.',
    decreases s.len(),
{
    if s.len() > 0 && s.last() != '.' {
        let front = s.drop_last();
        lemma_last_dot(front);
        assert forall|k: int| last_dot(s) < k < s.len() implies s[k] != '.' by {
            if k < front.len() {
                assert(s[k] == front[k]);
            }
        }
    }
}

/// `first_dash` is the index of a dash before which no dash stands, or the
/// length of `s`.
pub proof fn lemma_first_dash(s: Seq<char>)
    ensures
        0 <= first_dash(s) <= s.len(),
        first_dash(s) < s.len() ==> s[first_dash(s)] == '-',
        forall|k: int| 0 <= k < first_dash(s) ==> s[k] != '-',
    decreases s.len(),
{
    if s.len() > 0 && s.first() != '-' {
        let rest = s.drop_first();
        lemma_first_dash(rest);
        assert forall|k: int| 0 <= k < first_dash(s) implies s[k] != '-' by {
            if k > 0 {
                assert(s[k] == rest[k - 1]);
            }
        }
    }
}

/// A position `m` with no dash before it, which is the end of `s` or holds
/// a dash, is `first_dash(s)`.
pub proof fn lemma_first_dash_is(s: Seq<char>, m: int)
    requires
        0 <= m <= s.len(),
        forall|k: int| 0 <= k < m ==> s[k] != '-',
        m < s.len() ==> s[m] == '-',
    ensures
        first_dash(s) == m,
{
    lemma_first_dash(s);
}

/// Whether two strings hold the same characters.
pub fn str_eq(a: &str, b: &str) -> (r: bool)
    ensures
        r == (a@ == b@),
{
    let x = a.as_bytes();
    let y = b.as_bytes();
    proof {
        encode_utf8_decode_utf8(a@);
        encode_utf8_decode_utf8(b@);
    }
    if x.len() != y.len() {
        return false;
    }
    let mut i: usize = 0;
    while i < x.len()
        invariant
            i <= x.len(),
            x.len() == y.len(),
            x@ == a.spec_bytes(),
            y@ == b.spec_bytes(),
            forall|k: int| 0 <= k < i ==> x@[k] == y@[k],
        decreases x.len() - i,
    {
        if x[i] != y[i] {
            return false;
        }
        i += 1;
    }
    assert(x@ =~= y@);
    true
}

/// The number of characters of `name` and the index of its last dot, if it
/// has one.
fn scan_dots(name: &str) -> (r: (usize, Option<usize>))
    ensures
        r.0 == name@.len(),
        match r.1 {
            Some(d) => d == last_dot(name@),
            None => last_dot(name@) == -1,
        },
{
    let n = name.unicode_len();
    let mut i: usize = 0;
    let mut dot: Option<usize> = None;
    for c in it: name.chars()
        invariant
            it.seq() == name@,
            n == name@.len(),
            i == it.index(),
            i <= n,
            match dot {
                Some(d) => d == last_dot(name@.take(i as int)),
                None => last_dot(name@.take(i as int)) == -1,
            },
    {
        assert(name@.take(i + 1).drop_last() =~= name@.take(i as int));
        if c == '.' {
            dot = Some(i);
        }
        i += 1;
    }
    assert(name@.take(i as int) =~= name@);
    (n, dot)
}

/// The extension of a file name, as `std::path::Path::extension` gives it
/// for the last component of a path.
pub fn extension_of(name: &str) -> (r: Option<&str>)
    ensures
        match r {
            Some(e) => name_extension(name@) == Some(e@),
            None => name_extension(name@) is None,
        },
{
    if str_eq(name, "..") {
        proof {
            reveal_strlit("..");
            assert(name@ =~= dot_dot());
        }
        return None;
    }
    proof {
        reveal_strlit("..");
        assert(".."@ =~= dot_dot());
    }
    let (n, dot) = scan_dots(name);
    proof {
        lemma_last_dot(name@);
    }
    match dot {
        Some(d) => {
            if d == 0 {
                None
            } else {
                Some(name.substring_char(d + 1, n))
            }
        },
        None => None,
    }
}

/// The stem of a file name, as `std::path::Path::file_stem` gives it for
/// the last component of a path.
pub fn stem_of(name: &str) -> (r: &str)
    ensures
        r@ == name_stem(name@),
{
    if str_eq(name, "..") {
        proof {
            reveal_strlit("..");
            assert(name@ =~= dot_dot());
        }
        return name;
    }
    proof {
        reveal_strlit("..");
        assert(".."@ =~= dot_dot());
    }
    let (n, dot) = scan_dots(name);
    proof {
        lemma_last_dot(name@);
    }
    match dot {
        Some(d) => {
            if d == 0 {
                name
            } else {
                name.substring_char(0, d)
            }
        },
        None => name,
    }
}

/// `first` followed by `second`, as a new string.
pub fn join(first: &str, second: &str) -> (r: String)
    ensures
        r@ == first@ + second@,
{
    String::from_str(first).concat(second)
}

/// A file name with its extension replaced, as
/// `std::path::PathBuf::set_extension` leaves the last component of a path.
pub fn with_extension(name: &str, extension: &str) -> (r: String)
    ensures
        r@ == name_with_extension(name@, extension@),
{
    let stem = stem_of(name);
    if extension.unicode_len() == 0 {
        String::from_str(stem)
    } else {
        proof {
            reveal_strlit(".");
        }
        join(stem, ".").concat(extension)
    }
}

/// The `n`-th field of `s` split at every `-`, as `s.split('-').nth(n)`
/// gives it.
pub fn field_of(s: &str, n: usize) -> (r: Option<&str>)
    ensures
        match r {
            Some(f) => dash_field(s@, n as nat) == Some(f@),
            None => dash_field(s@, n as nat) is None,
        },
{
    let len = s.unicode_len();
    let mut i: usize = 0;
    let mut start: usize = 0;
    let mut field: usize = 0;
    assert(s@.skip(0) =~= s@);
    for c in it: s.chars()
        invariant
            it.seq() == s@,
            len == s@.len(),
            i == it.index(),
            start <= i <= len,
            field <= n,
            forall|k: int| start <= k < i ==> s@[k] != '-',
            dash_field(s@, n as nat) == dash_field(s@.skip(start as int), (n - field) as nat),
    {
        if c == '-' {
            let ghost rest = s@.skip(start as int);
            proof {
                lemma_first_dash_is(rest, i - start);
            }
            if field == n {
                return Some(s.substring_char(start, i));
            }
            assert(rest.skip(i - start + 1) =~= s@.skip(i + 1));
            field += 1;
            start = i + 1;
        }
        i += 1;
    }
    let ghost rest = s@.skip(start as int);
    proof {
        lemma_first_dash_is(rest, len - start);
    }
    if field == n {
        Some(s.substring_char(start, len))
    } else {
        None
    }
}

} // verus!
