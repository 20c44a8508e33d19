//! Platform directories of the application, as `/`-separated path strings.

use vstd::prelude::*;
use crate::text::{str_chars, string_from_chars};

verus! {

/// Directory name of the application under the platform directories.
pub const APP_NAME: &'static str = "dash-spv-ui";

/// `base` extended by the relative path `part` (`PathBuf::join` for a
/// relative `part`): a `/` is inserted unless `base` is empty or already
/// ends with one.
pub open spec fn path_join(base: Seq<char>, part: Seq<char>) -> Seq<char> {
    if base.len() == 0 {
        part
    } else if base.last() == '/' {
        base + part
    } else {
        base + seq!['/'] + part
    }
}

/// Joins the relative path `part` onto `base`.
pub fn join_path(base: &str, part: &str) -> (r: String)
    ensures
        r@ == path_join(base@, part@),
{
    let n = base.unicode_len();
    if n == 0 {
        return String::from_str(part);
    }
    let mut s = String::from_str(base);
    if base.get_char(n - 1) != '/' {
        crate::text::push_char(&mut s, '/');
    }
    s.append(part);
    s
}

/// The application directory under a platform directory, or under the
/// current directory when the platform has none.
pub open spec fn app_dir_spec(platform: Option<Seq<char>>) -> Seq<char> {
    path_join(
        match platform {
            Some(p) => p,
            None => "."@,
        },
        "dash-spv-ui"@,
    )
}

/// The application directory under `platform` (or `.`).
pub fn app_dir_in(platform: Option<String>) -> (r: String)
    ensures
        r@ == app_dir_spec(match platform {
            Some(p) => Some(p@),
            None => None,
        }),
{
    proof {
        reveal_strlit("dash-spv-ui");
    }
    match platform {
        Some(p) => join_path(p.as_str(), APP_NAME),
        None => join_path(".", APP_NAME),
    }
}

/// The user's configuration directory (`dirs::config_dir`, as text, lossily
/// for a path that is not UTF-8), depending on
/// the platform and its environment; `None` when it cannot be determined.
#[verifier::external_body]
fn platform_config_dir() -> Option<String> {
    dirs::config_dir().map(|p| p.to_string_lossy().into_owned())
}

/// The user's data directory (`dirs::data_dir`, as text, lossily for a path
/// that is not UTF-8), depending on the platform
/// and its environment; `None` when it cannot be determined.
#[verifier::external_body]
fn platform_data_dir() -> Option<String> {
    dirs::data_dir().map(|p| p.to_string_lossy().into_owned())
}

/// Returns the platform-specific config directory of the application.
pub fn config_dir() -> (r: String)
    ensures
        exists|platform: Option<Seq<char>>| r@ == app_dir_spec(platform),
{
    let platform = platform_config_dir();
    app_dir_in(platform)
}

/// Returns the platform-specific data directory of the application.
pub fn default_data_dir() -> (r: String)
    ensures
        exists|platform: Option<Seq<char>>| r@ == app_dir_spec(platform),
{
    let platform = platform_data_dir();
    app_dir_in(platform)
}

/// Returns the config file path.
pub fn config_file_path() -> (r: String)
    ensures
        exists|platform: Option<Seq<char>>| r@ == path_join(app_dir_spec(platform), "config.toml"@),
{
    let dir = config_dir();
    join_path(dir.as_str(), "config.toml")
}


/// Index of the first character of `s` at or after `i` that is not `/`.
pub open spec fn skip_slashes(s: Seq<char>, i: int) -> int
    decreases s.len() - i,
{
    if i < s.len() && s[i] == '/' {
        skip_slashes(s, i + 1)
    } else {
        i
    }
}

/// One past the last character of `s[..j]` that is not `/` (at least `lo`).
pub open spec fn trim_slashes_end(s: Seq<char>, lo: int, j: int) -> int
    decreases j - lo,
{
    if j > lo && s[j - 1] == '/' {
        trim_slashes_end(s, lo, j - 1)
    } else {
        j
    }
}

/// The path below `~` when `p` starts with the component `~` (`"~"` or
/// `"~/..."`): the text after `~`, without the separators around it.
pub open spec fn tilde_rest(p: Seq<char>) -> Option<Seq<char>> {
    if p.len() >= 1 && p[0] == '~' && (p.len() == 1 || p[1] == '/') {
        let lo = skip_slashes(p, 1);
        Some(p.subrange(lo, trim_slashes_end(p, lo, p.len() as int)))
    } else {
        None
    }
}

/// `p` with a leading `~` component replaced by the home directory `home`;
/// unchanged when it has none or the home directory is unknown.
pub open spec fn tilde_expanded(p: Seq<char>, home: Option<Seq<char>>) -> Seq<char> {
    match (tilde_rest(p), home) {
        (Some(rest), Some(h)) => path_join(h, rest),
        _ => p,
    }
}

/// Expands a leading `~` of `path` with the given home directory.
pub fn expand_tilde_with(path: &str, home: Option<String>) -> (r: String)
    ensures
        r@ == tilde_expanded(path@, match home {
            Some(h) => Some(h@),
            None => None,
        }),
{
    let cs = str_chars(path);
    let n = cs.len();
    if n == 0 || cs[0] != '~' || (n > 1 && cs[1] != '/') {
        return String::from_str(path);
    }
    let h = match home {
        Some(h) => h,
        None => {
            return String::from_str(path);
        },
    };
    let mut lo: usize = 1;
    while lo < n && cs[lo] == '/'
        invariant
            1 <= lo <= n,
            n == cs@.len(),
            skip_slashes(cs@, lo as int) == skip_slashes(cs@, 1),
        decreases n - lo,
    {
        lo = lo + 1;
    }
    let mut hi: usize = n;
    while hi > lo && cs[hi - 1] == '/'
        invariant
            lo <= hi <= n,
            n == cs@.len(),
            trim_slashes_end(cs@, lo as int, hi as int) == trim_slashes_end(cs@, lo as int, n as int),
        decreases hi - lo,
    {
        hi = hi - 1;
    }
    let mut rest: Vec<char> = Vec::new();
    let mut i: usize = lo;
    while i < hi
        invariant
            lo <= i <= hi <= n,
            n == cs@.len(),
            rest@ == cs@.subrange(lo as int, i as int),
        decreases hi - i,
    {
        rest.push(cs[i]);
        assert(cs@.subrange(lo as int, i + 1) =~= cs@.subrange(lo as int, i as int).push(cs@[i as int]));
        i = i + 1;
    }
    let rest_s = string_from_chars(&rest);
    join_path(h.as_str(), rest_s.as_str())
}

/// The user's home directory (`dirs::home_dir`, as text, lossily for a path
/// that is not UTF-8), depending on the platform
/// and its environment; `None` when it cannot be determined.
#[verifier::external_body]
fn home_dir() -> Option<String> {
    dirs::home_dir().map(|p| p.to_string_lossy().into_owned())
}

/// Expands `~` to the home directory in a path.
pub fn expand_tilde(path: &str) -> (r: String)
    ensures
        exists|home: Option<Seq<char>>| r@ == tilde_expanded(path@, home),
{
    let home = home_dir();
    let ghost h: Option<Seq<char>> = match &home {
        Some(h) => Some(h@),
        None => None,
    };
    let r = expand_tilde_with(path, home);
    assert(r@ == tilde_expanded(path@, h));
    r
}

/// Closes the name being read: it joins the finished names unless it is
/// empty (repeated or trailing separators) or `.`.
pub open spec fn close_part(done: Seq<Seq<char>>, cur: Seq<char>) -> Seq<Seq<char>> {
    if cur.len() == 0 || cur == seq!['.'] {
        done
    } else {
        done.push(cur)
    }
}

/// The names of `s` read so far: the finished ones, and the text since the
/// last `/`.
pub open spec fn scan_parts(s: Seq<char>) -> (Seq<Seq<char>>, Seq<char>)
    decreases s.len(),
{
    if s.len() == 0 {
        (Seq::empty(), Seq::empty())
    } else {
        let prev = scan_parts(s.drop_last());
        if s.last() == '/' {
            (close_part(prev.0, prev.1), Seq::empty())
        } else {
            (prev.0, prev.1.push(s.last()))
        }
    }
}

/// The components of a path: the root `/` first when the path is absolute,
/// then the names between separators, leaving out empty names and `.`
/// (`Path::components` keeps a `.` that starts a relative path; here it is
/// left out too).
pub open spec fn path_components(s: Seq<char>) -> Seq<Seq<char>> {
    let root: Seq<Seq<char>> = if s.len() > 0 && s[0] == '/' {
        seq![seq!['/']]
    } else {
        Seq::empty()
    };
    root + close_part(scan_parts(s).0, scan_parts(s).1)
}

/// Whether the path `base` is a leading part of the path `p`, compared by
/// whole components (`Path::starts_with`): the components of `base` are the
/// first components of `p`.
pub open spec fn path_has_prefix(p: Seq<char>, base: Seq<char>) -> bool {
    let pc = path_components(p);
    let bc = path_components(base);
    bc.len() <= pc.len() && pc.subrange(0, bc.len() as int) == bc
}

/// Whether two character vectors hold the same characters.
fn chars_eq(a: &Vec<char>, b: &Vec<char>) -> (r: bool)
    ensures
        r == (a@ == b@),
{
    if a.len() != b.len() {
        return false;
    }
    let mut i: usize = 0;
    while i < a.len()
        invariant
            i <= a@.len(),
            a@.len() == b@.len(),
            forall|j: int| 0 <= j < i ==> a@[j] == b@[j],
        decreases a.len() - i,
    {
        if a[i] != b[i] {
            return false;
        }
        i = i + 1;
    }
    assert(a@ =~= b@);
    true
}

/// Moves the name being read into the finished names, unless it is empty
/// or `.`.
fn close_name(done: &mut Vec<Vec<char>>, cur: &mut Vec<char>)
    ensures
        final(done).deep_view() == (if old(cur)@.len() == 0 || old(cur)@ == seq!['.'] {
            old(done).deep_view()
        } else {
            old(done).deep_view().push(old(cur)@)
        }),
        final(cur)@.len() == 0,
{
    let is_dot = cur.len() == 1 && cur[0] == '.';
    if is_dot {
        assert(cur@ =~= seq!['.']);
    }
    if cur.len() == 0 || is_dot {
        cur.clear();
        return;
    }
    let ghost before = done@;
    let mut name: Vec<char> = Vec::new();
    std::mem::swap(&mut name, cur);
    done.push(name);
    assert(done.deep_view() =~= old(done).deep_view().push(old(cur)@)) by {
        assert forall|j: int| 0 <= j < done@.len() implies done.deep_view()[j]
            == old(done).deep_view().push(old(cur)@)[j] by {
            if j < before.len() {
                assert(done@[j] == before[j]);
            }
        }
    }
}

/// The components of a path.
fn components(s: &str) -> (r: Vec<Vec<char>>)
    ensures
        r.deep_view() == path_components(s@),
{
    let cs = str_chars(s);
    let mut done: Vec<Vec<char>> = Vec::new();
    let ghost root: Seq<Seq<char>> = if s@.len() > 0 && s@[0] == '/' {
        seq![seq!['/']]
    } else {
        Seq::empty()
    };
    if cs.len() > 0 && cs[0] == '/' {
        let slash = vec!['/'];
        assert(slash.deep_view() =~= seq!['/']);
        done.push(slash);
    }
    assert(done.deep_view() =~= root);
    let mut cur: Vec<char> = Vec::new();
    let mut i: usize = 0;
    assert(cs@.take(0) =~= Seq::<char>::empty());
    while i < cs.len()
        invariant
            i <= cs@.len(),
            cs@ == s@,
            done.deep_view() == root + scan_parts(cs@.take(i as int)).0,
            cur@ == scan_parts(cs@.take(i as int)).1,
        decreases cs.len() - i,
    {
        let c = cs[i];
        let ghost prev = scan_parts(cs@.take(i as int));
        assert(cs@.take(i + 1).drop_last() =~= cs@.take(i as int));
        assert(cs@.take(i + 1).last() == c);
        if c == '/' {
            close_name(&mut done, &mut cur);
            assert(done.deep_view() =~= root + close_part(prev.0, prev.1));
        } else {
            cur.push(c);
        }
        i = i + 1;
    }
    let ghost last = scan_parts(cs@.take(i as int));
    close_name(&mut done, &mut cur);
    assert(cs@.take(i as int) =~= s@);
    assert(done.deep_view() =~= root + close_part(last.0, last.1));
    done
}

/// Whether the path `base` is a leading part of the path `p`, by components.
pub fn path_starts_with(p: &str, base: &str) -> (r: bool)
    ensures
        r == path_has_prefix(p@, base@),
{
    let pc = components(p);
    let bc = components(base);
    if bc.len() > pc.len() {
        return false;
    }
    let mut i: usize = 0;
    while i < bc.len()
        invariant
            i <= bc@.len() <= pc@.len(),
            pc.deep_view() == path_components(p@),
            bc.deep_view() == path_components(base@),
            forall|j: int| 0 <= j < i ==> pc.deep_view()[j] == bc.deep_view()[j],
        decreases bc.len() - i,
    {
        assert(pc@[i as int].deep_view() =~= pc@[i as int]@);
        assert(bc@[i as int].deep_view() =~= bc@[i as int]@);
        if !chars_eq(&pc[i], &bc[i]) {
            assert(pc.deep_view().subrange(0, bc@.len() as int)[i as int] != bc.deep_view()[i as int]);
            return false;
        }
        i = i + 1;
    }
    assert(pc.deep_view().subrange(0, bc@.len() as int) =~= bc.deep_view());
    true
}

/// Reading a name without separators extends the name being read.
proof fn lemma_scan_name(s: Seq<char>, x: Seq<char>)
    requires
        forall|i: int| 0 <= i < x.len() ==> x[i] != '/',
    ensures
        scan_parts(s + x) == (scan_parts(s).0, scan_parts(s).1 + x),
    decreases x.len(),
{
    if x.len() == 0 {
        assert(s + x =~= s);
        assert(scan_parts(s).1 + x =~= scan_parts(s).1);
    } else {
        lemma_scan_name(s, x.drop_last());
        assert((s + x).drop_last() =~= s + x.drop_last());
        assert((s + x).last() == x.last());
        assert(scan_parts(s).1 + x =~= (scan_parts(s).1 + x.drop_last()).push(x.last()));
    }
}

/// Joining a plain name onto a path adds it as one more component.
pub proof fn lemma_components_join(d: Seq<char>, x: Seq<char>)
    requires
        x.len() > 0,
        x != seq!['.'],
        forall|i: int| 0 <= i < x.len() ==> x[i] != '/',
    ensures
        path_components(path_join(d, x)) == path_components(d).push(x),
{
    let p = path_join(d, x);
    if d.len() == 0 {
        lemma_scan_name(d, x);
        assert(d + x =~= x);
        assert(scan_parts(d).1 + x =~= x);
        assert(path_components(d) =~= Seq::<Seq<char>>::empty());
        assert(path_components(p) =~= path_components(d).push(x));
    } else if d.last() == '/' {
        lemma_scan_name(d, x);
        assert(d.drop_last().push('/') =~= d);
        assert(scan_parts(d).1 =~= Seq::<char>::empty());
        assert(scan_parts(d).1 + x =~= x);
        assert(p[0] == d[0]);
        assert(path_components(p) =~= path_components(d).push(x));
    } else {
        let dd = d.push('/');
        assert(dd.drop_last() =~= d);
        lemma_scan_name(dd, x);
        assert(d + seq!['/'] + x =~= dd + x);
        assert(scan_parts(dd).1 + x =~= x);
        assert(p[0] == d[0]);
        assert(path_components(p) =~= path_components(d).push(x));
    }
}

/// A path that does not start with the component `~` is left as it is.
pub proof fn law_tilde_leaves_other_paths(p: Seq<char>, home: Option<Seq<char>>)
    requires
        p.len() == 0 || p[0] != '~' || (p.len() > 1 && p[1] != '/'),
    ensures
        tilde_expanded(p, home) == p,
{
}

/// A path that starts with `~` no longer does once expanded with a known
/// home directory that does not itself start with `~`.
pub proof fn law_tilde_replaced(p: Seq<char>, h: Seq<char>)
    requires
        tilde_rest(p) is Some,
        h.len() > 0,
        h[0] != '~',
    ensures
        tilde_expanded(p, Some(h))[0] != '~',
{
    let rest = tilde_rest(p)->0;
    assert(path_join(h, rest)[0] == h[0]);
}

} // verus!
