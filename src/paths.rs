//! Pure path computations: joining components, the user configuration
//! directory and the list of system configuration candidates.
use vstd::prelude::*;
use vstd::string::StrSliceExecFns;
use vstd::string::StringExecFns;

verus! {

/// `base` joined with the relative component `comp`, as a Unix path:
/// a separator is inserted unless `base` is empty or already ends with one.
pub open spec fn path_join(base: Seq<char>, comp: Seq<char>) -> Seq<char> {
    if base.len() == 0 {
        comp
    } else if base.last() == '/' {
        base + comp
    } else {
        base + seq!['/'] + comp
    }
}

/// Joins the relative component `comp` onto `base`.
pub fn join_path(base: &str, comp: &str) -> (r: String)
    ensures
        r@ == path_join(base@, comp@),
{
    let n = base.unicode_len();
    let mut out = String::from_str(base);
    if n > 0 && base.get_char(n - 1) != '/' {
        out.append("/");
        proof {
            reveal_strlit("/");
        }
    }
    out.append(comp);
    out
}

/// Index of the first `:` at or after `i`, or the length of `s` when there is none.
pub open spec fn colon_from(s: Seq<char>, i: int) -> int
    decreases s.len() - i,
{
    if i >= s.len() || i < 0 {
        s.len() as int
    } else if s[i] == ':' {
        i
    } else {
        colon_from(s, i + 1)
    }
}

/// The non-empty `:`-separated segments of `s` starting at `i`, in order;
/// empty segments are skipped.
pub open spec fn dirs_from(s: Seq<char>, i: int) -> Seq<Seq<char>>
    decreases s.len() - i,
{
    let e = colon_from(s, i);
    if i < 0 || i >= s.len() || e < i {
        seq![]
    } else {
        let head = if e > i {
            seq![s.subrange(i, e)]
        } else {
            Seq::<Seq<char>>::empty()
        };
        if e >= s.len() {
            head
        } else {
            head + dirs_from(s, e + 1)
        }
    }
}

/// The configuration file that a configuration directory may hold: `<dir>/uv/uv.toml`.
pub open spec fn config_file_in(dir: Seq<char>) -> Seq<char> {
    path_join(path_join(dir, "uv"@), "uv.toml"@)
}

/// The directory search list of the system tier: the given value, or the
/// default `/etc/xdg` when the value is missing or empty.
pub open spec fn search_value(value: Option<Seq<char>>) -> Seq<char> {
    match value {
        Some(v) if v.len() > 0 => v,
        _ => "/etc/xdg"@,
    }
}

/// The configuration file of each directory in `dirs`.
pub open spec fn files_in(dirs: Seq<Seq<char>>) -> Seq<Seq<char>> {
    dirs.map_values(|d: Seq<char>| config_file_in(d))
}

/// The system configuration files to look for, most preferred first.
pub open spec fn xdg_candidates(value: Option<Seq<char>>) -> Seq<Seq<char>> {
    files_in(dirs_from(search_value(value), 0))
}

/// The characters of an optional string.
pub open spec fn opt_view(value: Option<&str>) -> Option<Seq<char>> {
    match value {
        Some(v) => Some(v@),
        None => None,
    }
}

/// The characters of each string.
pub open spec fn views(v: Seq<String>) -> Seq<Seq<char>> {
    v.map_values(|x: String| x@)
}

/// `<dir>/uv/uv.toml`.
pub fn config_file_path(dir: &str) -> (r: String)
    ensures
        r@ == config_file_in(dir@),
{
    let uv = join_path(dir, "uv");
    let r = join_path(uv.as_str(), "uv.toml");
    proof {
        reveal_strlit("uv");
        reveal_strlit("uv.toml");
    }
    r
}

/// Index of the first `:` in `s` at or after `i`.
fn find_colon(s: &str, n: usize, i: usize) -> (r: usize)
    requires
        n == s@.len(),
        i <= n,
    ensures
        r == colon_from(s@, i as int),
        i <= r <= n,
{
    let mut j = i;
    while j < n
        invariant
            n == s@.len(),
            i <= j <= n,
            colon_from(s@, i as int) == colon_from(s@, j as int),
        decreases n - j,
    {
        if s.get_char(j) == ':' {
            return j;
        }
        j = j + 1;
    }
    j
}

/// The candidate system configuration files named by a `:`-separated list of
/// directories, in the order listed. A missing or empty list stands for
/// `/etc/xdg`; empty entries are skipped.
pub fn system_config_candidates(value: Option<&str>) -> (r: Vec<String>)
    ensures
        views(r@) == xdg_candidates(opt_view(value)),
{
    let s: &str = match value {
        Some(v) => if v.unicode_len() > 0 { v } else { "/etc/xdg" },
        None => "/etc/xdg",
    };
    proof {
        reveal_strlit("/etc/xdg");
    }
    assert(s@ == search_value(opt_view(value)));
    let n = s.unicode_len();
    let mut out: Vec<String> = Vec::new();
    let mut i: usize = 0;
    let ghost sv = s@;
    while i < n
        invariant
            n == sv.len(),
            sv == s@,
            0 <= i <= n,
            files_in(dirs_from(sv, 0)) == views(out@) + files_in(dirs_from(sv, i as int)),
        decreases n - i,
    {
        let e = find_colon(s, n, i);
        let ghost before = out@;
        let ghost rest = if e >= n {
            Seq::<Seq<char>>::empty()
        } else {
            dirs_from(sv, e + 1)
        };
        if e > i {
            let d = s.substring_char(i, e);
            let file = config_file_path(d);
            out.push(file);
            proof {
                let head = seq![sv.subrange(i as int, e as int)];
                assert(head[0] == d@);
                assert(files_in(head) =~= seq![file@]);
                assert(dirs_from(sv, i as int) == head + rest);
                assert(files_in(head + rest) =~= files_in(head) + files_in(rest));
                assert(views(out@) =~= views(before) + seq![file@]);
                assert(views(out@) + files_in(rest) =~= views(before) + (seq![file@] + files_in(
                    rest,
                )));
            }
        } else {
            proof {
                assert(dirs_from(sv, i as int) =~= Seq::<Seq<char>>::empty() + rest);
            }
        }
        proof {
            if e >= n {
                assert(dirs_from(sv, n as int) == Seq::<Seq<char>>::empty());
            }
        }
        if e >= n {
            i = n;
        } else {
            i = e + 1;
        }
    }
    proof {
        assert(dirs_from(sv, i as int) == Seq::<Seq<char>>::empty());
        assert(files_in(Seq::<Seq<char>>::empty()) =~= Seq::<Seq<char>>::empty());
        assert(views(out@) =~= views(out@) + Seq::<Seq<char>>::empty());
    }
    out
}

/// The first entry of `files`, from index `i` on, whose flag in `present` is set.
pub open spec fn first_present(files: Seq<Seq<char>>, present: Seq<bool>, i: int) -> Option<
    Seq<char>,
>
    decreases files.len() - i,
{
    if i < 0 || i >= files.len() || i >= present.len() {
        None
    } else if present[i] {
        Some(files[i])
    } else {
        first_present(files, present, i + 1)
    }
}

/// The fixed system configuration file consulted after the directory list.
pub open spec fn fallback_system_file() -> Seq<char> {
    "/etc/uv/uv.toml"@
}

/// All system configuration files to look for, most preferred first.
pub open spec fn system_candidates(value: Option<Seq<char>>) -> Seq<Seq<char>> {
    xdg_candidates(value).push(fallback_system_file())
}

/// The characters of an optional owned string.
pub open spec fn opt_string_view(r: Option<String>) -> Option<Seq<char>> {
    match r {
        Some(v) => Some(v@),
        None => None,
    }
}

/// The first of `files` whose flag in `present` is set; flags past the end
/// of `present` count as unset.
pub fn pick_present(files: &Vec<String>, present: &Vec<bool>) -> (r: Option<String>)
    ensures
        opt_string_view(r) == first_present(views(files@), present@, 0),
{
    let mut i: usize = 0;
    while i < files.len() && i < present.len()
        invariant
            i <= files.len(),
            first_present(views(files@), present@, 0) == first_present(
                views(files@),
                present@,
                i as int,
            ),
        decreases files.len() - i,
    {
        if present[i] {
            return Some(files[i].clone());
        }
        i = i + 1;
    }
    None
}

/// The system configuration file found in the directory list `value`: the
/// first candidate, in listed order, that `present` marks as an existing file.
pub fn locate_system_config_xdg(value: Option<&str>, present: &Vec<bool>) -> (r: Option<String>)
    ensures
        opt_string_view(r) == first_present(xdg_candidates(opt_view(value)), present@, 0),
{
    let files = system_config_candidates(value);
    pick_present(&files, present)
}

/// Every system configuration file to look for: the candidates of the
/// directory list, then `/etc/uv/uv.toml`.
pub fn system_config_search_path(value: Option<&str>) -> (r: Vec<String>)
    ensures
        views(r@) == system_candidates(opt_view(value)),
{
    let mut files = system_config_candidates(value);
    let fallback = String::from_str("/etc/uv/uv.toml");
    proof {
        reveal_strlit("/etc/uv/uv.toml");
    }
    files.push(fallback);
    assert(views(files@) =~= system_candidates(opt_view(value)));
    files
}

/// The system configuration file: the first entry of the search path that
/// `present` marks as an existing file, if any.
pub fn system_config_file(value: Option<&str>, present: &Vec<bool>) -> (r: Option<String>)
    ensures
        opt_string_view(r) == first_present(system_candidates(opt_view(value)), present@, 0),
{
    let files = system_config_search_path(value);
    pick_present(&files, present)
}

/// Whether `p` is an absolute Unix path.
pub open spec fn is_absolute(p: Seq<char>) -> bool {
    p.len() > 0 && p[0] == '/'
}

/// The user configuration directory: `xdg_config_home` when it is an
/// absolute path, else `<home>/.config`, else none.
pub open spec fn user_dir(xdg_config_home: Option<Seq<char>>, home: Option<Seq<char>>) -> Option<
    Seq<char>,
> {
    match xdg_config_home {
        Some(x) if is_absolute(x) => Some(x),
        _ => match home {
            Some(h) => Some(path_join(h, ".config"@)),
            None => None,
        },
    }
}

/// Computes the user configuration directory from the configuration-home
/// variable and the home directory.
pub fn user_config_dir(xdg_config_home: Option<&str>, home: Option<&str>) -> (r: Option<String>)
    ensures
        opt_string_view(r) == user_dir(opt_view(xdg_config_home), opt_view(home)),
{
    if let Some(x) = xdg_config_home {
        if x.unicode_len() > 0 && x.get_char(0) == '/' {
            return Some(String::from_str(x));
        }
    }
    match home {
        Some(h) => {
            proof {
                reveal_strlit(".config");
            }
            Some(join_path(h, ".config"))
        },
        None => None,
    }
}

proof fn lemma_colon_skips(s: Seq<char>, i: int, j: int)
    requires
        0 <= i <= j <= s.len(),
        forall|k: int| i <= k < j ==> s[k] != ':',
    ensures
        colon_from(s, i) == colon_from(s, j),
    decreases j - i,
{
    if i < j {
        lemma_colon_skips(s, i + 1, j);
    }
}

proof fn lemma_separators_give_nothing(value: Seq<char>, i: int)
    requires
        0 <= i,
        forall|k: int| 0 <= k < value.len() ==> value[k] == ':',
    ensures
        dirs_from(value, i) == Seq::<Seq<char>>::empty(),
    decreases value.len() - i,
{
    if i < value.len() {
        lemma_separators_give_nothing(value, i + 1);
        assert(dirs_from(value, i) =~= Seq::<Seq<char>>::empty() + dirs_from(value, i + 1));
    }
}

/// An empty entry is skipped: the directory after it is still searched.
pub proof fn lemma_empty_entry_skipped(dir: Seq<char>)
    requires
        dir.len() > 0,
        forall|k: int| 0 <= k < dir.len() ==> dir[k] != ':',
    ensures
        xdg_candidates(Some(seq![':'] + dir)) == seq![config_file_in(dir)],
{
    let v = seq![':'] + dir;
    assert forall|k: int| 1 <= k < v.len() implies v[k] != ':' by {
        assert(v[k] == dir[k - 1]);
    }
    lemma_colon_skips(v, 1, v.len() as int);
    assert(colon_from(v, 0) == 0);
    assert(v.subrange(1, v.len() as int) =~= dir);
    assert(dirs_from(v, 1) =~= seq![dir]);
    assert(dirs_from(v, 0) =~= Seq::<Seq<char>>::empty() + dirs_from(v, 1));
    assert(xdg_candidates(Some(v)) =~= seq![config_file_in(dir)]);
}

/// An unset or empty directory list searches exactly the default `/etc/xdg`.
pub proof fn lemma_unset_is_default()
    ensures
        xdg_candidates(None) == xdg_candidates(Some(Seq::<char>::empty())),
        xdg_candidates(None) == xdg_candidates(Some("/etc/xdg"@)),
{
}

/// A directory list made only of empty entries names no candidate, so no
/// system file is found through it.
pub proof fn lemma_only_separators(value: Seq<char>, present: Seq<bool>)
    requires
        value.len() > 0,
        forall|k: int| 0 <= k < value.len() ==> value[k] == ':',
    ensures
        xdg_candidates(Some(value)) == Seq::<Seq<char>>::empty(),
        first_present(xdg_candidates(Some(value)), present, 0) is None,
{
    lemma_separators_give_nothing(value, 0);
    assert(files_in(Seq::<Seq<char>>::empty()) =~= Seq::<Seq<char>>::empty());
}

/// The directories of a list are searched left to right: with `first:second`
/// and a file only under `second`, the file under `second` is chosen.
pub proof fn lemma_left_to_right(first: Seq<char>, second: Seq<char>)
    requires
        first.len() > 0,
        second.len() > 0,
        forall|k: int| 0 <= k < first.len() ==> first[k] != ':',
        forall|k: int| 0 <= k < second.len() ==> second[k] != ':',
    ensures
        xdg_candidates(Some(first + seq![':'] + second)) == seq![
            config_file_in(first),
            config_file_in(second),
        ],
        first_present(
            xdg_candidates(Some(first + seq![':'] + second)),
            seq![false, true],
            0,
        ) == Some(config_file_in(second)),
{
    let v = first + seq![':'] + second;
    let f = first.len() as int;
    assert forall|k: int| 0 <= k < f implies v[k] != ':' by {
        assert(v[k] == first[k]);
    }
    lemma_colon_skips(v, 0, f);
    assert(v[f] == ':');
    assert(colon_from(v, 0) == f);
    assert forall|k: int| f + 1 <= k < v.len() implies v[k] != ':' by {
        assert(v[k] == second[k - f - 1]);
    }
    lemma_colon_skips(v, f + 1, v.len() as int);
    assert(colon_from(v, f + 1) == v.len());
    assert(v.subrange(0, f) =~= first);
    assert(v.subrange(f + 1, v.len() as int) =~= second);
    assert(dirs_from(v, f + 1) == seq![second]);
    assert(dirs_from(v, 0) =~= seq![first, second]);
    assert(search_value(Some(v)) == v);
    let c = xdg_candidates(Some(v));
    assert(c =~= seq![config_file_in(first), config_file_in(second)]);
    let p = seq![false, true];
    assert(first_present(c, p, 2) is None);
    assert(first_present(c, p, 1) == Some(c[1]));
}

} // verus!
