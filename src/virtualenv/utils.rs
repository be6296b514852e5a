use vstd::prelude::*;
use vstd::string::{StrSliceExecFns, StringExecFns};

use crate::errors::VirtualEnvError;

verus! {

/// `part` appended to `base` as a path: an absolute `part` replaces `base`,
/// and a separator is put between the two where `base` lacks one.
pub open spec fn joined(base: Seq<char>, part: Seq<char>) -> Seq<char> {
    if part.len() > 0 && part[0] == '/' {
        part
    } else if base.len() == 0 {
        part
    } else if base.last() == '/' {
        base + part
    } else {
        base + seq!['/'] + part
    }
}

/// `path` is `base` itself (a trailing separator of `base` aside) or lies
/// below it: the rest of `path` after `base` starts at a separator.
pub open spec fn within(path: Seq<char>, base: Seq<char>) -> bool {
    ||| base.len() == 0
    ||| path == base
    ||| (path.len() > 0 && base == path.push('/'))
    ||| {
        &&& base.len() < path.len()
        &&& path.subrange(0, base.len() as int) == base
        &&& (base.last() == '/' || path[base.len() as int] == '/')
    }
}

/// What `path` is relative to `dir`, when `path` lies strictly below `dir`.
pub open spec fn relative_to(path: Seq<char>, dir: Seq<char>) -> Option<Seq<char>> {
    if dir.len() > 0 && dir.last() == '/' && dir.len() < path.len() && path.subrange(
        0,
        dir.len() as int,
    ) == dir {
        Some(path.subrange(dir.len() as int, path.len() as int))
    } else if dir.len() + 1 < path.len() && path.subrange(0, dir.len() as int) == dir
        && path[dir.len() as int] == '/' {
        Some(path.subrange(dir.len() + 1int, path.len() as int))
    } else {
        None
    }
}

pub fn join_path(base: &str, part: &str) -> (r: String)
    ensures
        r@ == joined(base@, part@),
{
    let base_len = base.unicode_len();
    let part_len = part.unicode_len();
    if part_len > 0 && part.get_char(0) == '/' {
        part.to_owned()
    } else if base_len == 0 {
        part.to_owned()
    } else if base.get_char(base_len - 1) == '/' {
        base.to_owned().concat(part)
    } else {
        let sep = "/";
        proof {
            reveal_strlit("/");
        }
        base.to_owned().concat(sep).concat(part)
    }
}

/// Whether the first `n` characters of `a` and `b` agree.
fn same_prefix(a: &str, b: &str, n: usize) -> (r: bool)
    requires
        n <= a@.len(),
        n <= b@.len(),
    ensures
        r == (a@.subrange(0, n as int) == b@.subrange(0, n as int)),
{
    let mut i: usize = 0;
    while i < n
        invariant
            i <= n,
            n <= a@.len(),
            n <= b@.len(),
            a@.subrange(0, i as int) == b@.subrange(0, i as int),
        decreases n - i,
    {
        if a.get_char(i) != b.get_char(i) {
            assert(a@.subrange(0, n as int)[i as int] != b@.subrange(0, n as int)[i as int]);
            return false;
        }
        assert(a@.subrange(0, i + 1) =~= a@.subrange(0, i as int).push(a@[i as int]));
        assert(b@.subrange(0, i + 1) =~= b@.subrange(0, i as int).push(b@[i as int]));
        i = i + 1;
    }
    true
}

/// Whether the directory `path` is `base` or lies below it.
pub fn is_within(path: &str, base: &str) -> (r: bool)
    ensures
        r == within(path@, base@),
{
    let path_len = path.unicode_len();
    let base_len = base.unicode_len();
    if base_len == 0 {
        return true;
    }
    if path_len < base_len {
        if path_len > 0 && path_len + 1 == base_len && base.get_char(path_len) == '/' {
            let prefix = same_prefix(path, base, path_len);
            proof {
                assert(path@.subrange(0, path_len as int) =~= path@);
                if prefix {
                    assert(base@ =~= path@.push('/'));
                } else if base@ == path@.push('/') {
                    assert(base@.subrange(0, path_len as int) =~= path@);
                }
            }
            return prefix;
        }
        proof {
            if path@ == base@ {
                assert(path@.len() == base@.len());
            }
            if path@.len() > 0 && base@ == path@.push('/') {
                assert(base@[path_len as int] == '/');
            }
        }
        return false;
    }
    let prefix = same_prefix(path, base, base_len);
    proof {
        assert(base@.subrange(0, base_len as int) =~= base@);
        if path_len == base_len {
            assert(path@.subrange(0, base_len as int) =~= path@);
        }
    }
    if !prefix {
        return false;
    }
    if path_len == base_len {
        return true;
    }
    base.get_char(base_len - 1) == '/' || path.get_char(base_len) == '/'
}

/// The part of `path` below `dir`, when `path` lies strictly below `dir`.
pub fn strip_dir(path: &str, dir: &str) -> (r: Option<String>)
    ensures
        r matches Some(s) ==> relative_to(path@, dir@) == Some(s@),
        r is None ==> relative_to(path@, dir@) is None,
{
    let path_len = path.unicode_len();
    let dir_len = dir.unicode_len();
    if dir_len >= path_len {
        return None;
    }
    let prefix = same_prefix(path, dir, dir_len);
    proof {
        assert(dir@.subrange(0, dir_len as int) =~= dir@);
    }
    if !prefix {
        return None;
    }
    if dir_len > 0 && dir.get_char(dir_len - 1) == '/' {
        return Some(path.substring_char(dir_len, path_len).to_owned());
    }
    if dir_len + 1 < path_len && path.get_char(dir_len) == '/' {
        return Some(path.substring_char(dir_len + 1, path_len).to_owned());
    }
    None
}

/// Where the activation script of the environment in `dir` lies.
pub open spec fn activate_script_spec(dir: Seq<char>) -> Seq<char> {
    joined(joined(dir, "bin"@), "activate"@)
}

pub fn activate_script(dir: &str) -> (r: String)
    ensures
        r@ == activate_script_spec(dir@),
{
    let bin = join_path(dir, "bin");
    join_path(bin.as_str(), "activate")
}

/// A directory is a virtual environment exactly when its activation script
/// (`bin/activate`) is a regular file; `script_is_file` says whether it is.
pub fn is_virtualenv(dir: &str, script_is_file: bool) -> (r: Result<(), VirtualEnvError>)
    ensures
        r is Ok <==> script_is_file,
        r matches Err(e) ==> (e matches VirtualEnvError::NotVirtualEnv(d) && d@ == dir@),
{
    if script_is_file {
        Ok(())
    } else {
        Err(VirtualEnvError::NotVirtualEnv(dir.to_owned()))
    }
}

} // verus!

verus! {

/// What `str::trim` leaves of `s`: `s` without its leading and trailing
/// white space, as Unicode defines it.
pub uninterp spec fn trimmed(s: Seq<char>) -> Seq<char>;

/// Relies on `str::trim`, whose result depends on the characters of `s` alone.
#[verifier::external_body]
pub fn trim_text(s: &str) -> (r: String)
    ensures
        r@ == trimmed(s@),
{
    s.trim().to_string()
}

/// A path that shell expansion leaves as it is: no `$`, no leading `~`.
pub open spec fn plain_path(s: Seq<char>) -> bool {
    !s.contains('$') && !(s.len() > 0 && s[0] == '~')
}

/// Relies on `shellexpand::full`: `~` and `$VAR` in `s` are replaced from the
/// user's home directory and environment; `None` where looking a variable up
/// fails. Otherwise the result depends on the environment; a string without
/// `$` comes back from the variable step unchanged, and one that does not
/// start with `~` from the tilde step.
#[verifier::external_body]
pub fn expand_path(s: &str) -> (r: Option<String>)
    ensures
        r is None ==> !plain_path(s@),
        r matches Some(e) ==> (plain_path(s@) ==> e@ == s@),
{
    shellexpand::full(s).ok().map(|expanded| expanded.into_owned())
}

} // verus!

verus! {

/// The names held in `v`, as a set.
pub open spec fn names(v: Seq<String>) -> Set<Seq<char>> {
    Set::new(|s: Seq<char>| exists|k: int| 0 <= k < v.len() && #[trigger] v[k]@ == s)
}

/// No name stands twice in `v`.
pub open spec fn distinct(v: Seq<String>) -> bool {
    forall|a: int, b: int| 0 <= a < v.len() && 0 <= b < v.len() && a != b ==> #[trigger] v[a]@
        != #[trigger] v[b]@
}

pub fn contains_name(v: &Vec<String>, name: &str) -> (r: bool)
    ensures
        r == names(v@).contains(name@),
{
    let mut i: usize = 0;
    while i < v.len()
        invariant
            i <= v.len(),
            forall|k: int| 0 <= k < i ==> #[trigger] v@[k]@ != name@,
        decreases v.len() - i,
    {
        if v[i].as_str().to_owned() == name.to_owned() {
            assert(v@[i as int]@ == name@);
            return true;
        }
        i = i + 1;
    }
    false
}

/// A path that a glob found under a backend's root directory, and whether it
/// is a virtual environment.
#[derive(Debug, Clone, PartialEq, Eq)]
pub struct GlobHit {
    pub path: String,
    pub is_env: bool,
}

/// `hit` is an environment whose path relative to `dir` is `name`.
pub open spec fn hit_names(hit: GlobHit, dir: Seq<char>, name: Seq<char>) -> bool {
    hit.is_env && relative_to(hit.path@, dir) == Some(name)
}

/// One of the first `n` of `hits` is an environment named `name` relative to `dir`.
pub open spec fn named_among(hits: Seq<GlobHit>, n: int, dir: Seq<char>, name: Seq<char>) -> bool {
    exists|j: int| 0 <= j < n && hit_names(#[trigger] hits[j], dir, name)
}

/// The environments among `hits`, named relative to `dir`.
pub open spec fn found_venvs(dir: Seq<char>, hits: Seq<GlobHit>) -> Set<Seq<char>> {
    Set::new(
        |s: Seq<char>| exists|j: int| 0 <= j < hits.len() && hit_names(#[trigger] hits[j], dir, s),
    )
}

/// The environments among the glob results `hits`, each named by its path
/// relative to `dir`, once each.
pub fn get_venvs_by_glob(dir: &str, hits: &Vec<GlobHit>) -> (r: Vec<String>)
    ensures
        names(r@) == found_venvs(dir@, hits@),
        distinct(r@),
{
    let mut result: Vec<String> = Vec::new();
    let mut i: usize = 0;
    while i < hits.len()
        invariant
            i <= hits.len(),
            distinct(result@),
            forall|k: int|
                0 <= k < result@.len() ==> named_among(hits@, i as int, dir@, #[trigger] result@[k]@),
            forall|j: int, s: Seq<char>|
                0 <= j < i && #[trigger] hit_names(hits@[j], dir@, s) ==> names(result@).contains(
                    s,
                ),
        decreases hits.len() - i,
    {
        let hit = &hits[i];
        if hit.is_env {
            if let Some(name) = strip_dir(hit.path.as_str(), dir) {
                if !contains_name(&result, name.as_str()) {
                    let ghost old_result = result@;
                    result.push(name);
                    proof {
                        assert forall|k: int| 0 <= k < result@.len() implies named_among(
                            hits@,
                            i + 1,
                            dir@,
                            #[trigger] result@[k]@,
                        ) by {
                            if k < old_result.len() {
                                assert(result@[k] == old_result[k]);
                                assert(named_among(hits@, i as int, dir@, old_result[k]@));
                            } else {
                                assert(hit_names(hits@[i as int], dir@, result@[k]@));
                            }
                        }
                        assert forall|j: int, s: Seq<char>|
                            0 <= j < i + 1 && #[trigger] hit_names(hits@[j], dir@, s) implies names(result@).contains(s) by {
                            if j < i {
                                assert(names(old_result).contains(s));
                                let k = choose|k: int|
                                    0 <= k < old_result.len() && #[trigger] old_result[k]@ == s;
                                assert(result@[k] == old_result[k]);
                            } else {
                                assert(result@[old_result.len() as int]@ == s);
                            }
                        }
                    }
                }
            }
        }
        i = i + 1;
    }
    proof {
        assert(names(result@) =~= found_venvs(dir@, hits@)) by {
            assert forall|s: Seq<char>| names(result@).contains(s) implies found_venvs(
                dir@,
                hits@,
            ).contains(s) by {
                let k = choose|k: int| 0 <= k < result@.len() && #[trigger] result@[k]@ == s;
                assert(named_among(hits@, i as int, dir@, result@[k]@));
                let j = choose|j: int| 0 <= j < i && hit_names(#[trigger] hits@[j], dir@, result@[k]@);
                assert(hit_names(hits@[j], dir@, s));
            }
        }
    }
    result
}

} // verus!
