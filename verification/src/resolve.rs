use vstd::prelude::*;

use crate::errors::AppError;

verus! {

/// Whether a raw path asks for home-directory expansion.
pub open spec fn starts_with_tilde(raw: Seq<char>) -> bool {
    raw.len() > 0 && raw[0] == '~'
}

/// Whether a raw path asks for working-directory expansion. The tilde rule
/// is tried first, so this only matters for paths that do not start with `~`.
pub open spec fn starts_with_dot(raw: Seq<char>) -> bool {
    raw.len() > 0 && raw[0] == '.'
}

/// The remainder of a prefixed path: everything from index 2 on. The prefix
/// character and the character after it (the separator, when the path is
/// written `~/...` or `./...`) are both dropped; a path of at most two
/// characters leaves nothing.
pub open spec fn remainder(raw: Seq<char>) -> Seq<char> {
    if raw.len() <= 2 {
        Seq::empty()
    } else {
        raw.subrange(2, raw.len() as int)
    }
}

/// A base directory joined with a relative remainder: the base, one `/`
/// separator, then the remainder; the base alone when the remainder is empty.
pub open spec fn joined(base: Seq<char>, rest: Seq<char>) -> Seq<char> {
    if rest.len() == 0 {
        base
    } else {
        base + seq!['/'] + rest
    }
}

/// What resolution produces for a raw path, given the home and working
/// directories: `~`-prefixed paths join the home directory with the
/// remainder, `.`-prefixed paths join the working directory with it, and
/// every other path passes through unchanged.
pub open spec fn resolved(raw: Seq<char>, home: Seq<char>, cwd: Seq<char>) -> Seq<char> {
    if starts_with_tilde(raw) {
        joined(home, remainder(raw))
    } else if starts_with_dot(raw) {
        joined(cwd, remainder(raw))
    } else {
        raw
    }
}

/// The remainder of a prefixed path, as executable code.
fn take_remainder(raw: &str) -> (t: String)
    ensures
        t@ == remainder(raw@),
{
    let n: usize = raw.unicode_len();
    if n <= 2 {
        let t = String::new();
        proof {
            assert(t@ =~= remainder(raw@));
        }
        t
    } else {
        let tail: &str = raw.substring_char(2, n);
        String::from_str(tail)
    }
}

/// A base directory joined with a relative remainder, as executable code.
fn join(base: &str, rest: &str) -> (r: String)
    ensures
        r@ == joined(base@, rest@),
{
    if rest.unicode_len() == 0 {
        let r = base.to_owned();
        proof {
            assert(r@ =~= joined(base@, rest@));
        }
        r
    } else {
        let mut r = String::from_str(base);
        r.append("/");
        r.append(rest);
        proof {
            reveal_strlit("/");
            assert("/"@ =~= seq!['/']);
            assert(r@ =~= joined(base@, rest@));
        }
        r
    }
}

/// Resolve a raw user-supplied path against the home directory (absent when
/// the environment could not provide one) and the current working directory.
/// Resolution fails only when a `~`-prefixed path needs the home directory
/// and none is available; every other input succeeds.
pub fn resolve(raw: &str, home: Option<&str>, cwd: &str) -> (r: Result<String, AppError>)
    ensures
        r is Ok <==> !(starts_with_tilde(raw@) && home is None),
        r matches Err(e) ==> e == AppError::PathResolution,
        home matches Some(h) ==> (r matches Ok(p) ==> p@ == resolved(raw@, h@, cwd@)),
        home is None ==> (r matches Ok(p) ==> p@ == resolved(raw@, Seq::empty(), cwd@)),
{
    let n: usize = raw.unicode_len();
    if n > 0 && raw.get_char(0) == '~' {
        match home {
            None => Err(AppError::PathResolution),
            Some(h) => {
                let rest = take_remainder(raw);
                Ok(join(h, rest.as_str()))
            },
        }
    } else if n > 0 && raw.get_char(0) == '.' {
        let rest = take_remainder(raw);
        Ok(join(cwd, rest.as_str()))
    } else {
        Ok(String::from_str(raw))
    }
}

/// The view of an optional owned string.
pub open spec fn opt_str_view(o: Option<String>) -> Option<Seq<char>> {
    match o {
        Some(s) => Some(s@),
        None => None,
    }
}

/// The directory part of a path: the characters before the last `/`, or the
/// single character `/` when the last separator is the leading one. A path
/// with no separator names a file in the current directory, so it has no
/// directory part to create.
pub open spec fn parent_spec(p: Seq<char>) -> Option<Seq<char>>
    decreases p.len(),
{
    if p.len() == 0 {
        None
    } else if p[p.len() - 1] == '/' {
        if p.len() == 1 {
            Some(seq!['/'])
        } else {
            Some(p.subrange(0, p.len() - 1))
        }
    } else {
        parent_spec(p.subrange(0, p.len() - 1))
    }
}

/// The directory part of a path, as executable code: what must exist before
/// the file itself can be created.
pub fn parent_dir(p: &str) -> (r: Option<String>)
    ensures
        opt_str_view(r) == parent_spec(p@),
{
    let n: usize = p.unicode_len();
    proof {
        assert(p@.subrange(0, n as int) =~= p@);
    }
    let mut i: usize = n;
    while i > 0
        invariant
            i <= n,
            n == p@.len(),
            parent_spec(p@) == parent_spec(p@.subrange(0, i as int)),
        decreases i,
    {
        let c = p.get_char(i - 1);
        if c == '/' {
            if i == 1 {
                let sep = "/".to_owned();
                proof {
                    reveal_strlit("/");
                    assert(sep@ =~= seq!['/']);
                    assert(p@.subrange(0, 1)[0] == '/');
                }
                return Some(sep);
            } else {
                let d = String::from_str(p.substring_char(0, i - 1));
                proof {
                    assert(p@.subrange(0, i as int).subrange(0, i - 1) =~= p@.subrange(
                        0,
                        i - 1,
                    ));
                }
                return Some(d);
            }
        }
        proof {
            assert(p@.subrange(0, i as int).subrange(0, i - 1) =~= p@.subrange(0, i - 1));
        }
        i = i - 1;
    }
    proof {
        assert(p@.subrange(0, 0).len() == 0);
    }
    None
}

/// A path that starts with neither `~` nor `.` resolves to itself, whatever
/// the home and working directories are.
pub proof fn lemma_literal_path_unchanged(raw: Seq<char>, home: Seq<char>, cwd: Seq<char>)
    requires
        !starts_with_tilde(raw),
        !starts_with_dot(raw),
    ensures
        resolved(raw, home, cwd) == raw,
{
}

/// A `~`-prefixed path resolves to the home directory joined with the
/// remainder past index 2, whatever the working directory is.
pub proof fn lemma_tilde_joins_home(raw: Seq<char>, home: Seq<char>, cwd: Seq<char>)
    requires
        starts_with_tilde(raw),
    ensures
        resolved(raw, home, cwd) == joined(home, remainder(raw)),
{
}

/// A `.`-prefixed path (one that does not also start with `~`) resolves to
/// the working directory joined with the remainder past index 2, whatever
/// the home directory is.
pub proof fn lemma_dot_joins_cwd(raw: Seq<char>, home: Seq<char>, cwd: Seq<char>)
    requires
        starts_with_dot(raw),
        !starts_with_tilde(raw),
    ensures
        resolved(raw, home, cwd) == joined(cwd, remainder(raw)),
{
}

} // verus!
