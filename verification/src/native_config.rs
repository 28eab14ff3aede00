//! Local viewer config for native builds.
//!
//! The web deployment serves default TOS/Hugging Face settings next to the viewer as
//! `config.json`. A locally-run native viewer has no such server, so instead it reads the
//! same file from the user's config directory.
use vstd::prelude::*;
use vstd::string::*;

use crate::text;

verus! {

/// A file: where to begin, and what to follow from there.
#[derive(Debug)]
pub struct FilePath {
    pub base: String,
    pub below: Vec<String>,
}

/// Where the config file is: at the place that is named for it, else in the home directory.
pub open spec fn config_file(
    rerun_config: Option<Seq<char>>,
    home: Option<Seq<char>>,
    userprofile: Option<Seq<char>>,
) -> Option<(Seq<char>, Seq<Seq<char>>)> {
    let in_home = seq![".rerun"@, "config.json"@];
    if rerun_config is Some {
        Some((rerun_config->0, Seq::empty()))
    } else if home is Some {
        Some((home->0, in_home))
    } else if userprofile is Some {
        Some((userprofile->0, in_home))
    } else {
        None
    }
}

/// Where the config file is: `$RERUN_CONFIG` first, then `~/.rerun/config.json`.
pub fn local_config_path(
    rerun_config: Option<String>,
    home: Option<String>,
    userprofile: Option<String>,
) -> (r: Option<FilePath>)
    ensures
        (match r {
            Some(path) => Some((path.base@, text::views(path.below@))),
            None => None,
        }) == config_file(
            text::opt_view(rerun_config),
            text::opt_view(home),
            text::opt_view(userprofile),
        ),
{
    if let Some(base) = rerun_config {
        let path: FilePath = FilePath { base, below: Vec::new() };
        assert(text::views(path.below@) =~= Seq::empty());
        return Some(path);
    }
    let base: String = match home {
        Some(home) => home,
        None => match userprofile {
            Some(profile) => profile,
            None => {
                return None;
            },
        },
    };
    let mut below: Vec<String> = Vec::new();
    below.push(".rerun".to_owned());
    below.push("config.json".to_owned());
    assert(text::views(below@) =~= seq![".rerun"@, "config.json"@]);
    Some(FilePath { base, below })
}

/// What is said of a config file that cannot be read. A missing file is not an error: the
/// dialogs still work with manual input.
pub fn read_warning(not_found: bool, err: &str, path: &str) -> (r: Option<String>)
    ensures
        text::opt_view(r) == (if not_found {
            None
        } else {
            Some("Failed to read local viewer config: "@ + err@ + "\nFile path: "@ + path@)
        }),
{
    if not_found {
        None
    } else {
        Some(text::cat4("Failed to read local viewer config: ", err, "\nFile path: ", path))
    }
}

/// A file that is named explicitly is read, whatever else is set. Else it is the one in the
/// home directory, which the first of the two variables that is set names.
pub proof fn law_explicit_file_wins(
    explicit: Seq<char>,
    home: Option<Seq<char>>,
    userprofile: Option<Seq<char>>,
)
    ensures
        config_file(Some(explicit), home, userprofile) == Some((explicit, Seq::<Seq<char>>::empty())),
        config_file(None, None, None) is None,
        home matches Some(dir) ==> config_file(None, home, userprofile) == Some(
            (dir, seq![".rerun"@, "config.json"@]),
        ),
        userprofile matches Some(dir) ==> config_file(None, None, userprofile) == Some(
            (dir, seq![".rerun"@, "config.json"@]),
        ),
{
}

} // verus!
