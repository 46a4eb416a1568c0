//! The environment variables that the library reads, and the file paths it
//! derives from them.
use vstd::prelude::*;

use crate::text::{concat_str, opt_view};

verus! {

/// The environment variables that path resolution and the providers consult;
/// `None` stands for a variable that is unset (or not valid Unicode).
pub struct HostEnvironment {
    pub xdg_config_home: Option<String>,
    pub xdg_cache_home: Option<String>,
    pub home: Option<String>,
    pub codex_home: Option<String>,
    pub openai_admin_key: Option<String>,
    pub openai_api_key: Option<String>,
    pub openai_base_url: Option<String>,
    pub openai_model: Option<String>,
    pub ollama_base_url: Option<String>,
    pub ollama_model: Option<String>,
}

impl HostEnvironment {
    /// An environment in which none of the variables is set.
    pub fn unset() -> (r: HostEnvironment)
        ensures
            r.xdg_config_home is None,
            r.xdg_cache_home is None,
            r.home is None,
            r.codex_home is None,
            r.openai_admin_key is None,
            r.openai_api_key is None,
            r.openai_base_url is None,
            r.openai_model is None,
            r.ollama_base_url is None,
            r.ollama_model is None,
    {
        HostEnvironment {
            xdg_config_home: None,
            xdg_cache_home: None,
            home: None,
            codex_home: None,
            openai_admin_key: None,
            openai_api_key: None,
            openai_base_url: None,
            openai_model: None,
            ollama_base_url: None,
            ollama_model: None,
        }
    }
}

/// `base` joined with the relative component `comp`, as `Path::join` does on
/// Unix: a `/` goes between them unless `base` is empty or already ends in `/`.
pub open spec fn path_join(base: Seq<char>, comp: Seq<char>) -> Seq<char> {
    if base.len() == 0 {
        comp
    } else if base.last() == '/' {
        base + comp
    } else {
        base + "/"@ + comp
    }
}

/// `base` joined with the relative component `comp`.
pub fn join_path(base: &str, comp: &str) -> (r: String)
    ensures
        r@ == path_join(base@, comp@),
{
    let n = base.unicode_len();
    proof {
        reveal_strlit("/");
    }
    if n == 0 {
        String::from_str(comp)
    } else if base.get_char(n - 1) == '/' {
        concat_str(base, comp)
    } else {
        let with_sep = concat_str(base, "/");
        concat_str(with_sep.as_str(), comp)
    }
}

/// The directory name that the library uses under the config and cache roots.
pub open spec fn app_dir() -> Seq<char> {
    "codexbar"@
}

/// Where a per-user file lives: `$PRIMARY/codexbar/<file>` when the primary
/// variable is set, else `$HOME/<fallback>/codexbar/<file>`, else the bare file name.
pub open spec fn spec_app_file(
    primary: Option<Seq<char>>,
    home: Option<Seq<char>>,
    fallback: Seq<char>,
    file: Seq<char>,
) -> Seq<char> {
    match primary {
        Some(p) => path_join(path_join(p, app_dir()), file),
        None => match home {
            Some(h) => path_join(path_join(path_join(h, fallback), app_dir()), file),
            None => file,
        },
    }
}

/// The path of a per-user file of this application.
pub fn app_file_path(primary: &Option<String>, home: &Option<String>, fallback: &str, file: &str) -> (r:
    String)
    ensures
        r@ == spec_app_file(opt_view(*primary), opt_view(*home), fallback@, file@),
{
    match primary {
        Some(p) => {
            let dir = join_path(p.as_str(), "codexbar");
            join_path(dir.as_str(), file)
        },
        None => match home {
            Some(h) => {
                let base = join_path(h.as_str(), fallback);
                let dir = join_path(base.as_str(), "codexbar");
                join_path(dir.as_str(), file)
            },
            None => String::from_str(file),
        },
    }
}

/// Where a file of the Codex home lives: `$CODEX_HOME/<file>`, else
/// `$HOME/.codex/<file>`, else `.codex/<file>`.
pub open spec fn spec_codex_file(
    codex_home: Option<Seq<char>>,
    home: Option<Seq<char>>,
    file: Seq<char>,
) -> Seq<char> {
    match codex_home {
        Some(c) => path_join(c, file),
        None => match home {
            Some(h) => path_join(path_join(h, ".codex"@), file),
            None => path_join(".codex"@, file),
        },
    }
}

/// The path of a file of the Codex home.
pub fn codex_file_path(env: &HostEnvironment, file: &str) -> (r: String)
    ensures
        r@ == spec_codex_file(opt_view(env.codex_home), opt_view(env.home), file@),
{
    match &env.codex_home {
        Some(c) => join_path(c.as_str(), file),
        None => match &env.home {
            Some(h) => {
                let dir = join_path(h.as_str(), ".codex");
                join_path(dir.as_str(), file)
            },
            None => join_path(".codex", file),
        },
    }
}

} // verus!
