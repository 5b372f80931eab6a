use vstd::prelude::*;
use vstd::string::StrSliceExecFns;
use vstd::string::StringExecFns;

verus! {

/// Appends the relative name `part` to the directory path `base`, with a
/// single `/` between them unless `base` is empty or already ends in one.
pub open spec fn joined_path(base: Seq<char>, part: Seq<char>) -> Seq<char> {
    if base.len() == 0 {
        part
    } else if base.last() == '/' {
        base + part
    } else {
        base + seq!['/'] + part
    }
}

/// The resource directory `<cwd>/res`.
pub open spec fn res_dir_of(cwd: Seq<char>) -> Seq<char> {
    joined_path(cwd, seq!['r', 'e', 's'])
}

/// The samples root `<cwd>/res/samples`.
pub open spec fn samples_root_of(cwd: Seq<char>) -> Seq<char> {
    joined_path(res_dir_of(cwd), seq!['s', 'a', 'm', 'p', 'l', 'e', 's'])
}

/// The backing file of the preset collection `<cwd>/res/presets.ron`.
pub open spec fn presets_path_of(cwd: Seq<char>) -> Seq<char> {
    joined_path(
        res_dir_of(cwd),
        seq!['p', 'r', 'e', 's', 'e', 't', 's', '.', 'r', 'o', 'n'],
    )
}

/// Joins a relative name onto a directory path.
pub fn join_path(base: &str, part: &str) -> (r: String)
    ensures
        r@ == joined_path(base@, part@),
{
    let n = base.unicode_len();
    let mut r = base.to_owned();
    if n > 0 && base.get_char(n - 1) != '/' {
        r.append("/");
        proof {
            reveal_strlit("/");
        }
    }
    r.append(part);
    r
}

/// The resource directory below the working directory `cwd`.
pub fn get_res_dir(cwd: &str) -> (r: String)
    ensures
        r@ == res_dir_of(cwd@),
{
    proof {
        reveal_strlit("res");
    }
    join_path(cwd, "res")
}

/// The root directory of the sample library below the working directory `cwd`.
pub fn get_samples_root(cwd: &str) -> (r: String)
    ensures
        r@ == samples_root_of(cwd@),
{
    let res = get_res_dir(cwd);
    proof {
        reveal_strlit("samples");
    }
    join_path(res.as_str(), "samples")
}

/// The path of the file that holds the preset collection.
pub fn get_presets_path(cwd: &str) -> (r: String)
    ensures
        r@ == presets_path_of(cwd@),
{
    let res = get_res_dir(cwd);
    proof {
        reveal_strlit("presets.ron");
    }
    join_path(res.as_str(), "presets.ron")
}

} // verus!
