//! Pure path helpers: home-directory expansion and ordered first-existing
//! resolution of the recorder binary.
//!
//! Resolution is modelled as a pure function over an ordered candidate
//! list plus, for each candidate, whether it exists on disk; the shell
//! supplies the environment override, the executable's directory, the
//! `PATH` entries and the existence answers, and performs no choice of
//! its own.

use vstd::prelude::*;
use vstd::string::*;

verus! {

/// What home expansion yields: a path that starts with the `~/` shorthand
/// has the shorthand replaced by the home directory when one is known;
/// any other path, or a missing home directory, leaves the path as it is.
pub open spec fn expand_home_spec(path: Seq<char>, home: Option<Seq<char>>) -> Seq<char> {
    if path.len() >= 2 && path[0] == '~' && path[1] == '/' && home is Some {
        home->0 + seq!['/'] + path.skip(2)
    } else {
        path
    }
}

/// Expands a leading `~/` against the given home directory.
pub fn expand_home(path: &str, home: &Option<String>) -> (r: String)
    ensures
        r@ == expand_home_spec(path@, home.deep_view()),
{
    let n = path.unicode_len();
    if n >= 2 && path.get_char(0) == '~' && path.get_char(1) == '/' {
        match home {
            Some(h) => {
                let mut r = h.clone();
                r.append("/");
                let rest = path.substring_char(2, n);
                r.append(rest);
                proof {
                    reveal_strlit("/");
                    assert(r@ =~= expand_home_spec(path@, home.deep_view()));
                }
                r
            },
            None => path.to_owned(),
        }
    } else {
        path.to_owned()
    }
}

/// Relies on dirs::home_dir: the platform's home directory for the
/// current user, if it reports one.  The result depends on the
/// environment, so nothing is stated of it; callers take it as an
/// arbitrary answer.
#[verifier::external_body]
fn home_dir_string() -> (r: Option<String>) {
    dirs::home_dir().map(|p| p.to_string_lossy().into_owned())
}

/// Expands a leading `~/` against the home directory the platform
/// reports; some home directory (possibly none) governs the result.
pub fn expand_path(path: &str) -> (r: String)
    ensures
        exists|h: Option<Seq<char>>| r@ == expand_home_spec(path@, h),
{
    let home = home_dir_string();
    let r = expand_home(path, &home);
    proof {
        assert(r@ == expand_home_spec(path@, home.deep_view()));
    }
    r
}

/// The index of the first candidate that exists, if any: ordered
/// fallback resolution, where the earliest existing candidate wins.
pub fn resolve_first_existing(present: &Vec<bool>) -> (r: Option<usize>)
    ensures
        match r {
            Some(i) => i < present@.len() && present@[i as int] && (forall|j: int|
                0 <= j < i ==> !present@[j]),
            None => forall|j: int| 0 <= j < present@.len() ==> !present@[j],
        },
{
    let mut i: usize = 0;
    while i < present.len()
        invariant
            i <= present@.len(),
            forall|j: int| 0 <= j < i ==> !present@[j],
        decreases present@.len() - i,
    {
        if present[i] {
            return Some(i);
        }
        i = i + 1;
    }
    None
}

/// The file name of the recorder binary.
pub open spec fn recorder_bin_spec() -> Seq<char> {
    "aegis-native-recorder"@
}

/// The ordered candidate paths for the recorder binary: environment
/// override first, then adjacent to the executable, then the bundled
/// resources path, then each `PATH` entry, then the build-output path
/// under the workspace root.
pub open spec fn recorder_candidates_spec(
    env_override: Option<Seq<char>>,
    exe_dir: Option<Seq<char>>,
    path_entries: Seq<Seq<char>>,
    workspace_root: Option<Seq<char>>,
) -> Seq<Seq<char>> {
    (match env_override {
        Some(e) => seq![e],
        None => Seq::<Seq<char>>::empty(),
    }) + (match exe_dir {
        Some(d) => seq![
            d + seq!['/'] + recorder_bin_spec(),
            d + "/../Resources/"@ + recorder_bin_spec(),
        ],
        None => Seq::<Seq<char>>::empty(),
    }) + path_entries.map_values(|e: Seq<char>| e + seq!['/'] + recorder_bin_spec())
        + (match workspace_root {
        Some(w) => seq![w + "/collectors/macos/native_recorder/.build/release/"@
            + recorder_bin_spec()],
        None => Seq::<Seq<char>>::empty(),
    })
}

/// Appends `/` and the recorder binary name to a directory path.
fn join_recorder_bin(dir: &str, sep: &str) -> (r: String)
    requires
        sep@ == seq!['/'],
    ensures
        r@ == dir@ + seq!['/'] + recorder_bin_spec(),
{
    let mut r = dir.to_owned();
    r.append(sep);
    r.append("aegis-native-recorder");
    proof {
        assert(r@ =~= dir@ + seq!['/'] + recorder_bin_spec());
    }
    r
}

/// Builds the ordered candidate paths for the recorder binary.
pub fn recorder_candidates(
    env_override: &Option<String>,
    exe_dir: &Option<String>,
    path_entries: &Vec<String>,
    workspace_root: &Option<String>,
) -> (r: Vec<String>)
    ensures
        r.deep_view() == recorder_candidates_spec(
            env_override.deep_view(),
            exe_dir.deep_view(),
            path_entries.deep_view(),
            workspace_root.deep_view(),
        ),
{
    proof {
        reveal_strlit("/");
    }
    let sep = "/";
    proof {
        assert(sep@ =~= seq!['/']);
    }
    let mut r: Vec<String> = Vec::new();
    match env_override {
        Some(e) => {
            r.push(e.clone());
        },
        None => {},
    }
    match exe_dir {
        Some(d) => {
            r.push(join_recorder_bin(d.as_str(), sep));
            let mut res = d.clone();
            res.append("/../Resources/");
            res.append("aegis-native-recorder");
            proof {
                assert(res@ =~= d@ + "/../Resources/"@ + recorder_bin_spec());
            }
            r.push(res);
        },
        None => {},
    }
    let mut k: usize = 0;
    while k < path_entries.len()
        invariant
            k <= path_entries@.len(),
            sep@ == seq!['/'],
            r.deep_view() =~~= (match env_override.deep_view() {
                Some(e) => seq![e],
                None => Seq::<Seq<char>>::empty(),
            }) + (match exe_dir.deep_view() {
                Some(d) => seq![
                    d + seq!['/'] + recorder_bin_spec(),
                    d + "/../Resources/"@ + recorder_bin_spec(),
                ],
                None => Seq::<Seq<char>>::empty(),
            }) + path_entries.deep_view().take(k as int).map_values(
                |e: Seq<char>| e + seq!['/'] + recorder_bin_spec(),
            ),
        decreases path_entries@.len() - k,
    {
        let ghost prev = r.deep_view();
        let joined = join_recorder_bin(path_entries[k].as_str(), sep);
        proof {
            assert(path_entries.deep_view()[k as int] == path_entries@[k as int]@);
            assert(joined@ == path_entries.deep_view()[k as int] + seq!['/']
                + recorder_bin_spec());
        }
        r.push(joined);
        proof {
            assert(r.deep_view() =~~= prev.push(path_entries.deep_view()[k as int] + seq!['/']
                + recorder_bin_spec()));
            assert(path_entries.deep_view().take(k as int + 1) =~~= path_entries.deep_view()
                .take(k as int).push(path_entries.deep_view()[k as int]));
        }
        k = k + 1;
    }
    match workspace_root {
        Some(w) => {
            let mut res = w.clone();
            res.append("/collectors/macos/native_recorder/.build/release/");
            res.append("aegis-native-recorder");
            proof {
                assert(res@ =~= w@ + "/collectors/macos/native_recorder/.build/release/"@
                    + recorder_bin_spec());
            }
            r.push(res);
        },
        None => {},
    }
    proof {
        assert(path_entries.deep_view().take(path_entries@.len() as int) =~~= path_entries
            .deep_view());
        assert(r.deep_view() =~~= recorder_candidates_spec(
            env_override.deep_view(),
            exe_dir.deep_view(),
            path_entries.deep_view(),
            workspace_root.deep_view(),
        ));
    }
    r
}

} // verus!
