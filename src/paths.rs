//! Where the speech model is looked for by default.
use vstd::prelude::*;
use vstd::string::*;

use crate::coordinator::Settings;

verus! {

/// `part` appended to `base` as a relative path component, with `/` as the
/// separator.
pub open spec fn join_spec(base: Seq<char>, part: Seq<char>) -> Seq<char> {
    if base.len() == 0 {
        part
    } else if base.last() == '/' {
        base + part
    } else {
        base + seq!['/'] + part
    }
}

/// The model directory below the per-user data directory `data_dir`, or below
/// the working directory when there is none.
pub open spec fn model_dir_spec(data_dir: Option<Seq<char>>) -> Seq<char> {
    let base = match data_dir {
        Some(d) => d,
        None => seq!['.'],
    };
    join_spec(join_spec(base, "voice-to-text"@), "models"@)
}

/// The default model file below `data_dir` (see `model_dir_spec`).
pub open spec fn model_path_spec(data_dir: Option<Seq<char>>) -> Seq<char> {
    join_spec(model_dir_spec(data_dir), "ggml-large-v3-turbo.bin"@)
}

/// Relies on `dirs::data_local_dir`: the per-user local data directory, if
/// the platform defines one. It depends on the environment, so nothing is
/// promised of it.
#[verifier::external_body]
fn data_local_dir() -> (r: Option<String>) {
    match dirs::data_local_dir() {
        Some(p) => Some(p.to_string_lossy().into_owned()),
        None => None,
    }
}

/// `part` appended to `base` as a relative path component.
pub fn join_path(base: &str, part: &str) -> (r: String)
    ensures
        r@ == join_spec(base@, part@),
{
    let n = base.unicode_len();
    let mut out = base.to_owned();
    if n > 0 && base.get_char(n - 1) != '/' {
        out.append("/");
        proof {
            reveal_strlit("/");
        }
    }
    out.append(part);
    proof {
        if n > 0 {
            assert(base@.last() == base@[n - 1]);
        }
    }
    out
}

/// The model directory below `data_dir`, or below `.` without one.
pub fn model_dir_under(data_dir: Option<&str>) -> (r: String)
    ensures
        r@ == model_dir_spec(
            match data_dir {
                Some(d) => Some(d@),
                None => None,
            },
        ),
{
    proof {
        reveal_strlit(".");
    }
    let base = match data_dir {
        Some(d) => d,
        None => ".",
    };
    let app = join_path(base, "voice-to-text");
    join_path(app.as_str(), "models")
}

/// The default model file below `data_dir`, or below `.` without one.
pub fn model_path_under(data_dir: Option<&str>) -> (r: String)
    ensures
        r@ == model_path_spec(
            match data_dir {
                Some(d) => Some(d@),
                None => None,
            },
        ),
{
    let dir = model_dir_under(data_dir);
    join_path(dir.as_str(), "ggml-large-v3-turbo.bin")
}

/// The model directory below this user's local data directory.
pub fn default_model_dir() -> (r: String)
    ensures
        exists|d: Option<Seq<char>>| r@ == model_dir_spec(d),
{
    let data = data_local_dir();
    let r = match &data {
        Some(d) => model_dir_under(Some(d.as_str())),
        None => model_dir_under(None),
    };
    proof {
        let d = match data {
            Some(s) => Some(s@),
            None => None,
        };
        assert(r@ == model_dir_spec(d));
    }
    r
}

/// The default model file below this user's local data directory.
pub fn default_model_path() -> (r: String)
    ensures
        exists|d: Option<Seq<char>>| r@ == model_path_spec(d),
{
    let data = data_local_dir();
    let r = match &data {
        Some(d) => model_path_under(Some(d.as_str())),
        None => model_path_under(None),
    };
    proof {
        let d = match data {
            Some(s) => Some(s@),
            None => None,
        };
        assert(r@ == model_path_spec(d));
    }
    r
}

impl Default for Settings {
    /// The default model file and Polish as the language.
    fn default() -> (r: Settings)
        ensures
            exists|d: Option<Seq<char>>| r.model_path@ == model_path_spec(d),
            r.language@ == "pl"@,
    {
        Settings { model_path: default_model_path(), language: "pl".to_owned() }
    }
}

} // verus!
