use vstd::prelude::*;

use crate::text::str_eq;

verus! {

/// The packs directory a command names, before other sources are consulted.
pub open spec fn flag_or_default(flag: Option<String>) -> Seq<char> {
    match flag {
        Some(f) => f@,
        None => "packs"@,
    }
}

/// The command-line context shared by commands: the `--packs` flag.
#[derive(Debug, Clone)]
pub struct AppContext {
    pub packs_flag: Option<String>,
}

impl AppContext {
    pub fn new(packs_flag: Option<String>) -> (r: Self)
        ensures
            r.packs_flag == packs_flag,
    {
        AppContext { packs_flag }
    }

    /// Whether the packs directory depends on the configuration file: the
    /// flag is left at its default and the environment names none.
    pub fn consults_config(&self, env_set: bool) -> (r: bool)
        ensures
            r == (flag_or_default(self.packs_flag) == "packs"@ && !env_set),
    {
        let flag = match &self.packs_flag {
            Some(f) => f.as_str(),
            None => "packs",
        };
        str_eq(flag, "packs") && !env_set
    }

    /// The packs directory: the flag where it differs from the default
    /// `packs`, else `env_packs` (the environment's choice), else
    /// `config_packs_dir` (the configuration file's), else the default.
    pub fn resolve_packs(&self, env_packs: Option<String>, config_packs_dir: Option<String>) -> (r: String)
        ensures
            r@ == if flag_or_default(self.packs_flag) != "packs"@ {
                flag_or_default(self.packs_flag)
            } else {
                match env_packs {
                    Some(e) => e@,
                    None => match config_packs_dir {
                        Some(c) => c@,
                        None => "packs"@,
                    },
                }
            },
    {
        let flag = match &self.packs_flag {
            Some(f) => f.clone(),
            None => "packs".to_owned(),
        };
        if !str_eq(flag.as_str(), "packs") {
            return flag;
        }
        if let Some(e) = env_packs {
            return e;
        }
        if let Some(c) = config_packs_dir {
            return c;
        }
        flag
    }
}

} // verus!
