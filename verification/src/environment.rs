use vstd::prelude::*;
use vstd::string::StringExecFns;
use crate::text::{contains_seq, occurs_at, str_to_chars, contains_chars, chars_to_string,
    lemma_contains_extend};
use crate::Platform;

verus! {

// The environment a tool runs under is derived from a reading of the
// caller's environment, never from ambient global state: the PATH value is
// extended with the platform's well-known executable directories, and the
// provider's config-directory variable is set under the home directory.
// The host process's own environment is never touched.

/// The well-known executable directories for a platform, in the order
/// they are offered to the PATH value.
pub open spec fn well_known_dirs(platform: Platform) -> Seq<Seq<char>> {
    match platform {
        Platform::Windows => seq![
            "C:\\Program Files (x86)\\Microsoft SDKs\\Azure\\CLI2\\wbin"@,
            "C:\\Program Files\\Microsoft SDKs\\Azure\\CLI2\\wbin"@,
        ],
        Platform::Unix => seq![
            "/opt/homebrew/bin"@,
            "/opt/homebrew/sbin"@,
            "/usr/local/bin"@,
            "/usr/local/sbin"@,
        ],
    }
}

/// `path` with one directory offered to it: unchanged when the directory
/// already occurs in it, otherwise extended by a separator and the
/// directory, the separator omitted before a first entry.
pub open spec fn with_dir(path: Seq<char>, dir: Seq<char>, sep: char) -> Seq<char> {
    if contains_seq(path, dir) {
        path
    } else if path.len() == 0 {
        dir
    } else {
        path + seq![sep] + dir
    }
}

/// `path` with every directory of `dirs` offered to it in order.
pub open spec fn extended_path(path: Seq<char>, dirs: Seq<Seq<char>>, sep: char) -> Seq<char>
    decreases dirs.len(),
{
    if dirs.len() == 0 {
        path
    } else {
        extended_path(with_dir(path, dirs.first(), sep), dirs.drop_first(), sep)
    }
}

/// The provider's config directory under a home directory.
pub open spec fn config_dir_of(home: Seq<char>) -> Seq<char> {
    home + "/.azure"@
}

proof fn lemma_with_dir_keeps(path: Seq<char>, dir: Seq<char>, sub: Seq<char>, sep: char)
    requires
        contains_seq(path, sub),
    ensures
        contains_seq(with_dir(path, dir, sep), sub),
{
    if !contains_seq(path, dir) {
        if path.len() == 0 {
            assert(sub.len() == 0);
            assert(dir.subrange(0, 0) =~= sub);
            assert(occurs_at(dir, sub, 0));
        } else {
            lemma_contains_extend(path, seq![sep] + dir, sub);
            assert(path + (seq![sep] + dir) =~= path + seq![sep] + dir);
        }
    }
}

proof fn lemma_with_dir_has(path: Seq<char>, dir: Seq<char>, sep: char)
    ensures
        contains_seq(with_dir(path, dir, sep), dir),
{
    if contains_seq(path, dir) {
        lemma_with_dir_keeps(path, dir, dir, sep);
    } else if path.len() == 0 {
        assert(dir.subrange(0, dir.len() as int) =~= dir);
        assert(occurs_at(dir, dir, 0));
    } else {
        let r = path + seq![sep] + dir;
        let i = path.len() + 1;
        assert(r.subrange(i as int, i + dir.len() as int) =~= dir);
        assert(occurs_at(r, dir, i as int));
    }
}

proof fn lemma_extended_keeps(path: Seq<char>, dirs: Seq<Seq<char>>, sub: Seq<char>, sep: char)
    requires
        contains_seq(path, sub),
    ensures
        contains_seq(extended_path(path, dirs, sep), sub),
    decreases dirs.len(),
{
    if dirs.len() > 0 {
        lemma_with_dir_keeps(path, dirs.first(), sub, sep);
        lemma_extended_keeps(with_dir(path, dirs.first(), sep), dirs.drop_first(), sub, sep);
    }
}

/// Every offered directory occurs in the extended PATH value at least once.
pub proof fn lemma_extended_path_has_all(path: Seq<char>, dirs: Seq<Seq<char>>, sep: char)
    ensures
        forall|k: int|
            0 <= k < dirs.len() ==> contains_seq(extended_path(path, dirs, sep), #[trigger] dirs[k]),
    decreases dirs.len(),
{
    if dirs.len() > 0 {
        let p1 = with_dir(path, dirs.first(), sep);
        lemma_with_dir_has(path, dirs.first(), sep);
        lemma_extended_keeps(p1, dirs.drop_first(), dirs.first(), sep);
        lemma_extended_path_has_all(p1, dirs.drop_first(), sep);
        assert forall|k: int| 0 <= k < dirs.len() implies contains_seq(
            extended_path(path, dirs, sep),
            #[trigger] dirs[k],
        ) by {
            if k > 0 {
                assert(dirs.drop_first()[k - 1] == dirs[k]);
            }
        }
    }
}

/// A PATH value that already holds every offered directory is returned
/// unchanged: extension never duplicates a directory already present.
pub proof fn lemma_extended_path_noop(path: Seq<char>, dirs: Seq<Seq<char>>, sep: char)
    requires
        forall|k: int| 0 <= k < dirs.len() ==> contains_seq(path, #[trigger] dirs[k]),
    ensures
        extended_path(path, dirs, sep) == path,
    decreases dirs.len(),
{
    if dirs.len() > 0 {
        assert(contains_seq(path, dirs[0]));
        assert(with_dir(path, dirs.first(), sep) == path);
        assert(forall|k: int|
            0 <= k < dirs.drop_first().len() ==> contains_seq(
                path,
                #[trigger] dirs.drop_first()[k],
            ));
        lemma_extended_path_noop(path, dirs.drop_first(), sep);
    }
}

/// Extending an already extended PATH value changes nothing: shaping the
/// environment is idempotent.
pub proof fn lemma_extended_path_idempotent(path: Seq<char>, dirs: Seq<Seq<char>>, sep: char)
    ensures
        extended_path(extended_path(path, dirs, sep), dirs, sep) == extended_path(
            path,
            dirs,
            sep,
        ),
{
    lemma_extended_path_has_all(path, dirs, sep);
    lemma_extended_path_noop(extended_path(path, dirs, sep), dirs, sep);
}

fn well_known_dir_list(platform: Platform) -> (r: Vec<Vec<char>>)
    ensures
        r.deep_view() == well_known_dirs(platform),
{
    let mut r: Vec<Vec<char>> = Vec::new();
    match platform {
        Platform::Windows => {
            r.push(str_to_chars("C:\\Program Files (x86)\\Microsoft SDKs\\Azure\\CLI2\\wbin"));
            r.push(str_to_chars("C:\\Program Files\\Microsoft SDKs\\Azure\\CLI2\\wbin"));
        },
        Platform::Unix => {
            r.push(str_to_chars("/opt/homebrew/bin"));
            r.push(str_to_chars("/opt/homebrew/sbin"));
            r.push(str_to_chars("/usr/local/bin"));
            r.push(str_to_chars("/usr/local/sbin"));
        },
    }
    proof {
        assert(r.deep_view() =~~= well_known_dirs(platform));
    }
    r
}

/// The PATH value with every well-known directory of the platform offered
/// to it in order, as `extended_path` describes.
pub fn extend_path_value(path: &str, platform: Platform) -> (r: String)
    ensures
        r@ == extended_path(path@, well_known_dirs(platform), platform.spec_separator()),
{
    let dirs = well_known_dir_list(platform);
    let sep = platform.separator();
    let mut cur = str_to_chars(path);
    let ghost dv = dirs.deep_view();
    let mut i: usize = 0;
    proof {
        assert(dv.skip(0) =~= dv);
    }
    while i < dirs.len()
        invariant
            i <= dirs@.len(),
            dv == dirs.deep_view(),
            dv.len() == dirs@.len(),
            sep == platform.spec_separator(),
            extended_path(cur@, dv.skip(i as int), sep) == extended_path(
                path@,
                dv,
                sep,
            ),
        decreases dirs@.len() - i,
    {
        let d = &dirs[i];
        let ghost before = cur@;
        proof {
            assert(d@ =~= dv[i as int]);
            assert(dv.skip(i as int).first() == dv[i as int]);
            assert(dv.skip(i as int).drop_first() =~= dv.skip(i + 1));
        }
        if !contains_chars(&cur, d) {
            if cur.len() > 0 {
                cur.push(sep);
            }
            let ghost mid = cur@;
            let mut j: usize = 0;
            while j < d.len()
                invariant
                    j <= d@.len(),
                    cur@ == mid + d@.take(j as int),
                decreases d@.len() - j,
            {
                cur.push(d[j]);
                proof {
                    assert(mid + d@.take(j + 1) =~= (mid + d@.take(j as int)).push(d@[j as int]));
                }
                j += 1;
            }
            proof {
                if before.len() == 0 {
                    assert(cur@ =~= d@);
                } else {
                    assert(cur@ =~= before + seq![sep] + d@);
                }
            }
        }
        proof {
            assert(cur@ == with_dir(before, dv[i as int], sep));
        }
        i += 1;
    }
    proof {
        assert(dv.skip(dv.len() as int) =~= Seq::<Seq<char>>::empty());
    }
    chars_to_string(&cur)
}

/// The variables this subsystem reads from the caller's environment.
pub struct EnvironmentReading {
    pub path: String,
    pub home: Option<String>,
    pub azure_config_dir: Option<String>,
}

/// The variables a shaped child environment sets.
pub struct ShapedEnvironment {
    pub path: String,
    pub azure_config_dir: Option<String>,
}

/// A shaped child environment, derived from a reading of the caller's
/// environment without touching it: the PATH value gains every well-known
/// directory it lacks, and when a home directory is known the provider's
/// config-directory variable is set beneath it, any prior value kept
/// otherwise.
pub fn build_environment(base: &EnvironmentReading, platform: Platform) -> (r: ShapedEnvironment)
    ensures
        r.path@ == extended_path(base.path@, well_known_dirs(platform), platform.spec_separator()),
        base.home matches Some(h) ==> (r.azure_config_dir matches Some(d) && d@ == config_dir_of(
            h@,
        )),
        base.home is None ==> r.azure_config_dir == base.azure_config_dir,
{
    let path = extend_path_value(base.path.as_str(), platform);
    let config = match &base.home {
        Some(h) => Some(h.clone().concat("/.azure")),
        None => match &base.azure_config_dir {
            Some(c) => Some(c.clone()),
            None => None,
        },
    };
    ShapedEnvironment { path, azure_config_dir: config }
}

} // verus!
