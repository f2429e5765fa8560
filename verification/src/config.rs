//! Start-up decisions of the server: which command was asked for, and
//! whether the optional ranking and embedding clients are configured. The
//! environment is read outside this library; these functions take its values.

use vstd::prelude::*;
use vstd::string::*;
use crate::embed;
use crate::gemini::{self, base_url_text};
use crate::text::{ascii_lower, eq_ignore_ascii_case, str_eq, trim_of};

verus! {

/// What the server was asked to do.
#[derive(Debug, Clone, Copy, PartialEq, Eq, Structural)]
pub enum Mode {
    /// Serve the MCP tools over stdin/stdout.
    Stdio,
    /// Serve MCP, the REST API and the web build over HTTP.
    Http,
    /// Build the compact embedding sidecar and exit.
    BuildSidecar,
}

/// The message for a command that is not one of the known ones.
pub open spec fn unknown_command_message(command: Seq<char>) -> Seq<char> {
    "unknown command '"@ + command + "' (use 'stdio', 'http', or 'build-sidecar')"@
}

/// The mode a command-line argument names; no argument means `stdio`.
pub open spec fn mode_of(command: Option<&str>) -> Option<Mode> {
    match command {
        None => Some(Mode::Stdio),
        Some(c) => if c@ == "stdio"@ {
            Some(Mode::Stdio)
        } else if c@ == "http"@ {
            Some(Mode::Http)
        } else if c@ == "build-sidecar"@ {
            Some(Mode::BuildSidecar)
        } else {
            None
        },
    }
}

/// No command means `stdio`; a command names a mode exactly when it is one
/// of `stdio`, `http` and `build-sidecar`, each standing for its own mode.
pub proof fn lemma_mode_names(command: Option<&str>)
    ensures
        command is None ==> mode_of(command) == Some(Mode::Stdio),
        command matches Some(c) ==> (mode_of(command) == Some(Mode::Stdio) <==> c@ == "stdio"@),
        command matches Some(c) ==> (mode_of(command) == Some(Mode::Http) <==> c@ == "http"@),
        command matches Some(c) ==> (mode_of(command) == Some(Mode::BuildSidecar) <==> c@
            == "build-sidecar"@),
        command matches Some(c) ==> (mode_of(command) is None <==> (c@ != "stdio"@ && c@
            != "http"@ && c@ != "build-sidecar"@)),
{
    reveal_strlit("stdio");
    reveal_strlit("http");
    reveal_strlit("build-sidecar");
    assert("http"@ != "stdio"@) by {
        assert("http"@.len() != "stdio"@.len());
    }
    assert("build-sidecar"@ != "stdio"@) by {
        assert("build-sidecar"@.len() != "stdio"@.len());
    }
    assert("build-sidecar"@ != "http"@) by {
        assert("build-sidecar"@.len() != "http"@.len());
    }
}

/// Parses the command argument, rejecting anything but `stdio`, `http` and
/// `build-sidecar` with a message naming the bad command.
pub fn parse_mode(command: Option<&str>) -> (r: Result<Mode, String>)
    ensures
        match r {
            Ok(mode) => mode_of(command) == Some(mode),
            Err(message) => mode_of(command) is None && message@
                == unknown_command_message(command->0@),
        },
{
    match command {
        None => Ok(Mode::Stdio),
        Some(c) => {
            if str_eq(c, "stdio") {
                Ok(Mode::Stdio)
            } else if str_eq(c, "http") {
                Ok(Mode::Http)
            } else if str_eq(c, "build-sidecar") {
                Ok(Mode::BuildSidecar)
            } else {
                let mut message = String::from_str("unknown command '");
                message.append(c);
                message.append("' (use 'stdio', 'http', or 'build-sidecar')");
                Err(message)
            }
        },
    }
}

/// The provider name that enables model-backed ranking.
pub const RANK_PROVIDER: &'static str = "gemini";

/// The provider name that enables query embeddings.
pub const EMBED_PROVIDER: &'static str = "openai";

/// The model for absolute-fit scoring when none is configured.
pub const DEFAULT_MATCH_MODEL: &'static str = "gemini-2.5-flash";

/// The model for pairwise comparison when none is configured.
pub const DEFAULT_PAIR_MODEL: &'static str = "gemini-2.5-flash-lite";

/// Settings of the cheap-model ranking client.
pub struct RankSettings {
    pub api_key: String,
    pub base_url: String,
    pub match_model: String,
    pub pair_model: String,
}

/// Settings of the query-embedding client.
pub struct EmbedSettings {
    pub api_key: String,
    pub base_url: String,
    pub model: String,
}

/// A configured key: set and not empty.
pub open spec fn usable_key(key: Option<String>) -> bool {
    match key {
        Some(k) => k@.len() > 0,
        None => false,
    }
}

/// A key is usable exactly when it is set and not empty, whatever its length.
pub proof fn lemma_usable_key_is_set_and_non_empty(key: Option<String>)
    ensures
        usable_key(key) <==> (key is Some && key->0@.len() > 0),
        forall|k: String| #[trigger] k@.len() > 0 ==> usable_key(Some(k)),
        !usable_key(None),
{
}

/// `value`, or `default` when unset.
pub open spec fn or_default(value: Option<String>, default: Seq<char>) -> Seq<char> {
    match value {
        Some(v) => v@,
        None => default,
    }
}

fn string_or_default(value: Option<String>, default: &str) -> (r: String)
    ensures
        r@ == or_default(value, default@),
{
    match value {
        Some(v) => v,
        None => String::from_str(default),
    }
}

/// The ranking client's settings, or `None` when ranking is unconfigured:
/// the provider must name Gemini (in any ASCII case) and the key must be set
/// and non-empty. Unset models fall back to the defaults; the base URL is
/// normalized as the client does.
pub fn rank_settings(
    provider: &str,
    api_key: Option<String>,
    base_url: &str,
    match_model: Option<String>,
    pair_model: Option<String>,
) -> (r: Option<RankSettings>)
    ensures
        r is Some <== (ascii_lower(provider@) == ascii_lower(RANK_PROVIDER@) && usable_key(api_key)),
        r is Some ==> (ascii_lower(provider@) == ascii_lower(RANK_PROVIDER@) && usable_key(api_key)),
        ascii_lower(provider@) == ascii_lower(RANK_PROVIDER@) && api_key is Some && api_key->0@.len()
            > 0 ==> r is Some,
        api_key is None ==> r is None,
        api_key is Some && api_key->0@.len() == 0 ==> r is None,
        r matches Some(s) ==> {
            &&& s.api_key == api_key->0
            &&& s.base_url@ == base_url_text(base_url@, gemini::DEFAULT_BASE_URL@)
            &&& s.match_model@ == or_default(match_model, DEFAULT_MATCH_MODEL@)
            &&& s.pair_model@ == or_default(pair_model, DEFAULT_PAIR_MODEL@)
        },
        r is Some ==> ascii_lower(provider@) == "gemini"@,
        ascii_lower(provider@) == "gemini"@ && api_key is Some && api_key->0@.len() > 0 ==> r is Some,
        r matches Some(s) ==> {
            &&& match_model is None ==> s.match_model@ == "gemini-2.5-flash"@
            &&& pair_model is None ==> s.pair_model@ == "gemini-2.5-flash-lite"@
            &&& trim_of(base_url@).len() == 0 ==> s.base_url@
                == "https://generativelanguage.googleapis.com/v1beta/openai"@
        },
{
    proof {
        reveal_strlit("gemini");
        assert(ascii_lower(RANK_PROVIDER@) =~= "gemini"@);
    }
    if !eq_ignore_ascii_case(provider, RANK_PROVIDER) {
        return None;
    }
    match api_key {
        None => None,
        Some(key) => {
            if key.as_str().is_empty() {
                return None;
            }
            Some(
                RankSettings {
                    api_key: key,
                    base_url: gemini::base_url(base_url),
                    match_model: string_or_default(match_model, DEFAULT_MATCH_MODEL),
                    pair_model: string_or_default(pair_model, DEFAULT_PAIR_MODEL),
                },
            )
        },
    }
}

/// The embedding client's settings, or `None` when embeddings are
/// unconfigured: the provider must name OpenAI (in any ASCII case) and the
/// key must be set and non-empty. The base URL and model are normalized as
/// the client does (blank values take the defaults).
pub fn embed_settings(provider: &str, api_key: Option<String>, base_url: &str, model: String) -> (r:
    Option<EmbedSettings>)
    ensures
        r is Some <== (ascii_lower(provider@) == ascii_lower(EMBED_PROVIDER@) && usable_key(
            api_key,
        )),
        r is Some ==> (ascii_lower(provider@) == ascii_lower(EMBED_PROVIDER@) && usable_key(
            api_key,
        )),
        ascii_lower(provider@) == ascii_lower(EMBED_PROVIDER@) && api_key is Some && api_key->0@.len()
            > 0 ==> r is Some,
        api_key is None ==> r is None,
        api_key is Some && api_key->0@.len() == 0 ==> r is None,
        r matches Some(s) ==> {
            &&& s.api_key == api_key->0
            &&& s.base_url@ == base_url_text(base_url@, embed::DEFAULT_BASE_URL@)
            &&& s.model@ == if trim_of(model@).len() == 0 {
                embed::DEFAULT_MODEL@
            } else {
                model@
            }
        },
        r is Some ==> ascii_lower(provider@) == "openai"@,
        ascii_lower(provider@) == "openai"@ && api_key is Some && api_key->0@.len() > 0 ==> r is Some,
        r matches Some(s) ==> {
            &&& trim_of(model@).len() == 0 ==> s.model@ == "text-embedding-3-small"@
            &&& trim_of(base_url@).len() == 0 ==> s.base_url@ == "https://api.openai.com/v1"@
        },
{
    proof {
        reveal_strlit("openai");
        assert(ascii_lower(EMBED_PROVIDER@) =~= "openai"@);
    }
    if !eq_ignore_ascii_case(provider, EMBED_PROVIDER) {
        return None;
    }
    match api_key {
        None => None,
        Some(key) => {
            if key.as_str().is_empty() {
                return None;
            }
            Some(
                EmbedSettings {
                    api_key: key,
                    base_url: embed::base_url(base_url),
                    model: embed::model(model),
                },
            )
        },
    }
}

} // verus!
