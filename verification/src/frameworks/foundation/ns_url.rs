//! `NSURL`: file URLs, which hold a file system path, and other URLs, which
//! hold their string. Strings are sequences of characters.
use vstd::prelude::*;

verus! {

/// A URL.
pub enum NSURLHostObject {
    /// A file URL: a file system path (without `file://`), and the working
    /// directory that a relative path is taken from.
    FileURL { path: Vec<char>, working_directory: Vec<char> },
    /// Any other URL: its string.
    OtherURL { string: Vec<char> },
}

/// `s` starts with `p`.
pub open spec fn starts_with(s: Seq<char>, p: Seq<char>) -> bool {
    p.len() <= s.len() && s.take(p.len() as int) == p
}

/// `s` without the copies of `./` at its start.
pub open spec fn trim_dot_slashes(s: Seq<char>) -> Seq<char>
    decreases s.len(),
{
    if starts_with(s, seq!['.', '/']) {
        trim_dot_slashes(s.skip(2))
    } else {
        s
    }
}

/// The strings that `-initWithString:` accepts: non-empty, and starting
/// with `http` or `/`.
pub open spec fn url_string_accepted(s: Seq<char>) -> bool {
    s.len() > 0 && (starts_with(s, seq!['h', 't', 't', 'p']) || starts_with(s, seq!['/']))
}

/// The text `" -- file://localhost"`.
pub open spec fn localhost_marker() -> Seq<char> {
    seq![' ', '-', '-', ' ', 'f', 'i', 'l', 'e', ':', '/', '/', 'l', 'o', 'c', 'a', 'l', 'h', 'o', 's', 't']
}

fn has_prefix(s: &Vec<char>, p: &[char]) -> (b: bool)
    ensures
        b == starts_with(s@, p@),
{
    if p.len() > s.len() {
        return false;
    }
    let mut i: usize = 0;
    while i < p.len()
        invariant
            p@.len() <= s@.len(),
            i <= p@.len(),
            forall|j: int| 0 <= j < i ==> s@[j] == p@[j],
        decreases p@.len() - i,
    {
        if s[i] != p[i] {
            assert(s@.take(p@.len() as int)[i as int] != p@[i as int]);
            return false;
        }
        i = i + 1;
    }
    assert(s@.take(p@.len() as int) =~= p@);
    true
}

fn append_chars(out: &mut Vec<char>, part: &[char])
    ensures
        final(out)@ == old(out)@ + part@,
{
    let ghost before = out@;
    let mut k: usize = 0;
    while k < part.len()
        invariant
            k <= part@.len(),
            out@ == before + part@.take(k as int),
        decreases part@.len() - k,
    {
        out.push(part[k]);
        k = k + 1;
        assert(out@ =~= before + part@.take(k as int));
    }
    assert(part@.take(part@.len() as int) =~= part@);
}

/// Where the copies of `./` at the start of `path` end.
fn dot_slashes_end(path: &Vec<char>) -> (start: usize)
    ensures
        start <= path@.len(),
        path@.skip(start as int) == trim_dot_slashes(path@),
{
    let mut start: usize = 0;
    let ghost full = path@;
    assert(full.skip(0) =~= full);
    while path.len() - start >= 2 && path[start] == '.' && path[start + 1] == '/'
        invariant
            full == path@,
            start <= path@.len(),
            trim_dot_slashes(full) == trim_dot_slashes(full.skip(start as int)),
        decreases path@.len() - start,
    {
        let ghost rest = full.skip(start as int);
        assert(rest.take(2) =~= seq!['.', '/']);
        assert(rest.skip(2) =~= full.skip(start + 2));
        start = start + 2;
    }
    proof {
        let rest = full.skip(start as int);
        if starts_with(rest, seq!['.', '/']) {
            assert(rest.take(2)[0] == rest[0]);
            assert(rest.take(2)[1] == rest[1]);
            assert(rest[0] == path@[start as int]);
            assert(rest[1] == path@[start + 1]);
        }
    }
    start
}

impl NSURLHostObject {
    /// `-initFileURLWithPath:`: a file URL for `path` (with any `~`
    /// already expanded), relative to `working_directory`.
    pub fn init_file_url_with_path(path: Vec<char>, working_directory: Vec<char>) -> (u: Self)
        ensures
            u matches NSURLHostObject::FileURL { path: p, working_directory: w } && p@ == path@ && w@
                == working_directory@,
    {
        NSURLHostObject::FileURL { path, working_directory }
    }

    /// `-initWithString:`: a URL for `string`, or nil (`None`) for an empty
    /// string or one that starts with neither `http` nor `/`, which would
    /// make apps crash later.
    pub fn init_with_string(string: Vec<char>) -> (u: Option<Self>)
        ensures
            match u {
                Some(NSURLHostObject::OtherURL { string: s }) => url_string_accepted(string@) && s@
                    == string@,
                Some(NSURLHostObject::FileURL { .. }) => false,
                None => !url_string_accepted(string@),
            },
    {
        let http: [char; 4] = ['h', 't', 't', 'p'];
        let slash: [char; 1] = ['/'];
        assert(http@ =~= seq!['h', 't', 't', 'p']);
        assert(slash@ =~= seq!['/']);
        if string.len() == 0 || !(has_prefix(&string, &http) || has_prefix(&string, &slash)) {
            return None;
        }
        Some(NSURLHostObject::OtherURL { string })
    }

    /// `-isFileURL`.
    pub fn is_file_url(&self) -> (b: bool)
        ensures
            b == (self is FileURL),
    {
        match self {
            NSURLHostObject::FileURL { .. } => true,
            NSURLHostObject::OtherURL { .. } => false,
        }
    }

    /// `-path`: a file URL's path; another URL's string if it is an
    /// absolute path, else nil (`None`).
    pub fn path(&self) -> (p: Option<&Vec<char>>)
        ensures
            match *self {
                NSURLHostObject::FileURL { path, .. } => p == Some(&path),
                NSURLHostObject::OtherURL { string } => if starts_with(string@, seq!['/']) {
                    p == Some(&string)
                } else {
                    p is None
                },
            },
    {
        match self {
            NSURLHostObject::FileURL { path, .. } => Some(path),
            NSURLHostObject::OtherURL { string } => {
                let slash: [char; 1] = ['/'];
                assert(slash@ =~= seq!['/']);
                if has_prefix(string, &slash) {
                    Some(string)
                } else {
                    None
                }
            },
        }
    }

    /// `-absoluteString`: the path or string the URL holds.
    pub fn absolute_string(&self) -> (s: &Vec<char>)
        ensures
            s == match *self {
                NSURLHostObject::FileURL { path, .. } => &path,
                NSURLHostObject::OtherURL { string } => &string,
            },
    {
        match self {
            NSURLHostObject::FileURL { path, .. } => path,
            NSURLHostObject::OtherURL { string } => string,
        }
    }

    /// `-description`: a URL's string, or a file URL's path; a relative
    /// path, without its leading `./`s, is followed by
    /// ` -- file://localhost` and the working directory.
    pub fn description(&self) -> (d: Vec<char>)
        ensures
            d@ == match *self {
                NSURLHostObject::FileURL { path, working_directory } => if starts_with(path@, seq!['/']) {
                    path@
                } else {
                    trim_dot_slashes(path@) + localhost_marker() + working_directory@
                },
                NSURLHostObject::OtherURL { string } => string@,
            },
    {
        match self {
            NSURLHostObject::FileURL { path, working_directory } => {
                let slash: [char; 1] = ['/'];
                assert(slash@ =~= seq!['/']);
                let mut out: Vec<char> = Vec::new();
                if has_prefix(path, &slash) {
                    append_chars(&mut out, path.as_slice());
                    assert(out@ =~= path@);
                    return out;
                }
                let start = dot_slashes_end(path);
                let rest = vstd::slice::slice_subrange(path.as_slice(), start, path.len());
                assert(rest@ =~= path@.skip(start as int));
                append_chars(&mut out, rest);
                let marker: [char; 20] = [
                    ' ', '-', '-', ' ', 'f', 'i', 'l', 'e', ':', '/', '/', 'l', 'o', 'c', 'a', 'l', 'h', 'o',
                    's', 't',
                ];
                assert(marker@ =~= localhost_marker());
                append_chars(&mut out, &marker);
                append_chars(&mut out, working_directory.as_slice());
                out
            },
            NSURLHostObject::OtherURL { string } => {
                let mut out: Vec<char> = Vec::new();
                append_chars(&mut out, string.as_slice());
                assert(out@ =~= string@);
                out
            },
        }
    }
}

/// The file system path of `url`: its [NSURLHostObject::path], or the empty
/// path when it has none.
pub fn to_rust_path(url: &NSURLHostObject) -> (path: Vec<char>)
    ensures
        path@ == match *url {
            NSURLHostObject::FileURL { path, .. } => path@,
            NSURLHostObject::OtherURL { string } => if starts_with(string@, seq!['/']) {
                string@
            } else {
                Seq::<char>::empty()
            },
        },
{
    let mut out: Vec<char> = Vec::new();
    if let Some(p) = url.path() {
        append_chars(&mut out, p.as_slice());
    }
    out
}

} // verus!
