//! User-facing operations over the store and the environment synchronizer.
//!
//! Each operation validates its preconditions against the store, performs
//! the mutation, and reports the outcome as a value.  The caller persists
//! the store and applies environment changes; in bridge mode the `use` and
//! `clear` operations hand back the shell command text that a wrapping
//! shell function evaluates in the parent shell's context.

use vstd::prelude::*;
use crate::config::{Config, Provider, StoreOp, first_index_of, lemma_first_index_of};
use crate::envsync::{
    export_commands_spec, generate_export_commands, generate_unset_commands, unset_commands_spec,
};
use crate::strutil::str_eq;

verus! {

/// Outcome of adding a provider: a duplicate name is overwritten, with a
/// notice owed to the user, never an error.
pub enum AddOutcome {
    Added,
    Overwritten,
}

/// Outcome of removing a provider by name.
pub enum RemoveOutcome {
    NotFound,
    Removed,
}

/// Outcome of switching to a provider by name.  `Switched` carries the
/// record to mirror into the environment and, in bridge mode, the `export`
/// command text for the wrapping shell.
pub enum UseOutcome {
    NotFound,
    AlreadyActive,
    Switched { provider: Provider, commands: Option<String> },
}

/// Outcome of clearing the selection.  `Cleared` names the provider that
/// was active and, in bridge mode, carries the `unset` command text.
pub enum ClearOutcome {
    NothingActive,
    Cleared { previous: String, commands: Option<String> },
}

/// What a read-only environment check found.
pub enum CheckOutcome {
    /// Nothing is selected; `have_providers` decides whether to suggest
    /// selecting one or adding one first.
    NoSelection { have_providers: bool },
    /// The selection names a provider that no longer exists: the persisted
    /// state was tampered with from outside.
    StaleSelection { name: String },
    /// The live variables both match the selected provider's values.
    EnvMatches { provider: Provider },
    /// Some live variable is absent or differs from the selected provider's
    /// values; the corrective step is to switch to it again.
    EnvMismatch { provider: Provider },
}

pub struct ProviderManager;

impl ProviderManager {
    /// Inserts or overwrites the record keyed by `name` and reports which of
    /// the two happened.
    pub fn add_provider(
        config: &mut Config,
        name: String,
        api_url: String,
        token: String,
        model: Option<String>,
    ) -> (r: AddOutcome)
        ensures
            final(config)@ == (StoreOp::Add {
                name: name@,
                api_url: api_url@,
                token: token@,
                model: model.deep_view(),
            }).apply(old(config)@),
            r is Overwritten <==> old(config)@.contains_name(name@),
    {
        let existed = config.contains_provider(name.as_str());
        config.add_provider(name, api_url, token, model);
        if existed {
            AddOutcome::Overwritten
        } else {
            AddOutcome::Added
        }
    }

    /// Removes the record keyed by `name`; an unknown name is a user-facing
    /// no-op that mutates nothing.
    pub fn remove_provider(config: &mut Config, name: &str) -> (r: RemoveOutcome)
        ensures
            r is Removed <==> old(config)@.contains_name(name@),
            r is Removed ==> final(config)@ == (StoreOp::Remove { name: name@ }).apply(
                old(config)@,
            ),
            r is NotFound ==> final(config)@ == old(config)@,
    {
        if !config.contains_provider(name) {
            return RemoveOutcome::NotFound;
        }
        config.remove_provider(name);
        RemoveOutcome::Removed
    }

    /// Switches the selection to `name`.  Switching to the name that is
    /// already selected short-circuits as an informational no-op — except in
    /// bridge mode, where the export commands are re-emitted so the wrapping
    /// shell can re-apply them.
    pub fn use_provider(config: &mut Config, name: &str, bridge_mode: bool) -> (r: UseOutcome)
        ensures
            r is NotFound <==> !old(config)@.contains_name(name@),
            r is AlreadyActive <==> old(config)@.contains_name(name@) && old(
                config,
            )@.current_provider == Some(name@) && !bridge_mode,
            match r {
                UseOutcome::NotFound => final(config)@ == old(config)@,
                UseOutcome::AlreadyActive => final(config)@ == old(config)@,
                UseOutcome::Switched { provider, commands } => {
                    &&& final(config)@ == (StoreOp::Select { name: name@ }).apply(old(config)@)
                    &&& provider@ == old(config)@.providers[first_index_of(
                        old(config)@.providers,
                        name@,
                    )]
                    &&& match commands {
                        Some(c) => bridge_mode && c@ == export_commands_spec(provider@),
                        None => !bridge_mode,
                    }
                },
            },
    {
        proof {
            lemma_first_index_of(config@.providers, name@);
        }
        if !config.contains_provider(name) {
            return UseOutcome::NotFound;
        }
        let already = match &config.current_provider {
            Some(current) => str_eq(current.as_str(), name),
            None => false,
        };
        if already && !bridge_mode {
            return UseOutcome::AlreadyActive;
        }
        config.set_current_provider(name);
        let provider = match config.get_current_provider() {
            Some(p) => p.clone(),
            None => {
                proof {
                    assert(false);
                }
                Provider {
                    name: String::new(),
                    api_url: String::new(),
                    token: String::new(),
                    model: None,
                }
            },
        };
        let commands = if bridge_mode {
            Some(generate_export_commands(&provider))
        } else {
            None
        };
        UseOutcome::Switched { provider, commands }
    }

    /// Clears the selection.  With none set this is an informational no-op,
    /// never an error; clearing twice in a row therefore always reports
    /// `NothingActive` the second time.
    pub fn clear_provider(config: &mut Config, bridge_mode: bool) -> (r: ClearOutcome)
        ensures
            r is NothingActive <==> old(config)@.current_provider is None,
            match r {
                ClearOutcome::NothingActive => final(config)@ == old(config)@,
                ClearOutcome::Cleared { previous, commands } => {
                    &&& final(config)@ == StoreOp::Deselect.apply(old(config)@)
                    &&& old(config)@.current_provider == Some(previous@)
                    &&& match commands {
                        Some(c) => bridge_mode && c@ == unset_commands_spec(),
                        None => !bridge_mode,
                    }
                },
            },
    {
        let previous = match &config.current_provider {
            Some(p) => Some(p.clone()),
            None => None,
        };
        match previous {
            None => ClearOutcome::NothingActive,
            Some(previous) => {
                config.clear_current_provider();
                let commands = if bridge_mode {
                    Some(generate_unset_commands())
                } else {
                    None
                };
                ClearOutcome::Cleared { previous, commands }
            },
        }
    }

    /// Read-only comparison of the live auth-token and base-URL variables
    /// against the store's recorded selection.
    pub fn check_environment(
        config: &Config,
        env_token: Option<&str>,
        env_url: Option<&str>,
    ) -> (r: CheckOutcome)
        ensures
            match r {
                CheckOutcome::NoSelection { have_providers } => {
                    &&& config@.current_provider is None
                    &&& have_providers == (config@.providers.len() > 0)
                },
                CheckOutcome::StaleSelection { name } => {
                    &&& config@.current_provider == Some(name@)
                    &&& !config@.contains_name(name@)
                },
                CheckOutcome::EnvMatches { provider } => {
                    &&& config@.selected() == Some(provider@)
                    &&& env_token.deep_view() == Some(provider@.token)
                    &&& env_url.deep_view() == Some(provider@.api_url)
                },
                CheckOutcome::EnvMismatch { provider } => {
                    &&& config@.selected() == Some(provider@)
                    &&& !(env_token.deep_view() == Some(provider@.token) && env_url.deep_view()
                        == Some(provider@.api_url))
                },
            },
            r is NoSelection <==> config@.current_provider is None,
            r is StaleSelection <==> config@.current_provider is Some && config@.selected() is None,
    {
        let name = match &config.current_provider {
            Some(n) => n.clone(),
            None => {
                return CheckOutcome::NoSelection { have_providers: config.providers.len() > 0 };
            },
        };
        proof {
            lemma_first_index_of(config@.providers, name@);
        }
        let provider = match config.get_current_provider() {
            Some(p) => p.clone(),
            None => {
                return CheckOutcome::StaleSelection { name };
            },
        };
        let token_matches = match env_token {
            Some(t) => str_eq(t, provider.token.as_str()),
            None => false,
        };
        let url_matches = match env_url {
            Some(u) => str_eq(u, provider.api_url.as_str()),
            None => false,
        };
        if token_matches && url_matches {
            CheckOutcome::EnvMatches { provider }
        } else {
            CheckOutcome::EnvMismatch { provider }
        }
    }
}

/// Opening of the wrapper function, up to the quoted path of the binary.
pub const SHELLENV_PREFIX: &'static str = "cce() {\n    local cce_binary=\"";

/// Rest of the wrapper function after the quoted path: it intercepts `use`
/// and `clear`, re-invokes the binary with the control variable set, and
/// evaluates the captured command text in its own shell; every other
/// subcommand passes through unmodified.
pub const SHELLENV_SUFFIX: &'static str = "\"\n    \n    if [[ \"$1\" == \"use\" && -n \"$2\" ]]; then\n        local env_output\n        env_output=$(CCE_SHELL_INTEGRATION=1 \"$cce_binary\" use \"$2\" 2>/dev/null)\n        if [[ $? -eq 0 && -n \"$env_output\" ]]; then\n            eval \"$env_output\"\n            echo \"\u{26a1} Switched to service provider '$2'\"\n            echo \"\u{2705} Environment variables are now active in current terminal\"\n        else\n            \"$cce_binary\" \"$@\"\n        fi\n    elif [[ \"$1\" == \"clear\" ]]; then\n        local env_output\n        env_output=$(CCE_SHELL_INTEGRATION=1 \"$cce_binary\" clear 2>/dev/null)\n        if [[ $? -eq 0 && -n \"$env_output\" ]]; then\n            eval \"$env_output\"\n            echo \"\u{1f9f9} Cleared service provider configuration\"\n            echo \"\u{2705} Environment variables are now unset in current terminal\"\n        else\n            \"$cce_binary\" \"$@\"\n        fi\n    else\n        \"$cce_binary\" \"$@\"\n    fi\n}";

/// The installable wrapper-function definition for a binary at this path.
pub open spec fn shellenv_spec(exe_path: Seq<char>) -> Seq<char> {
    SHELLENV_PREFIX@ + exe_path + SHELLENV_SUFFIX@
}

impl ProviderManager {
    /// Renders the shell-function definition that a user's shell evaluates
    /// to install the bridge, closing over the binary's resolved path.
    pub fn render_shellenv(exe_path: &str) -> (r: String)
        ensures
            r@ == shellenv_spec(exe_path@),
    {
        let mut out = String::new();
        out.append(SHELLENV_PREFIX);
        out.append(exe_path);
        out.append(SHELLENV_SUFFIX);
        out
    }
}

/// What a secret looks like when shown: the first eight characters then
/// `****` when it is longer than eight, bare `****` otherwise.
pub open spec fn masked_spec(t: Seq<char>) -> Seq<char> {
    if t.len() > 8 {
        t.subrange(0, 8) + "****"@
    } else {
        "****"@
    }
}

/// Masks a secret for display.
pub fn mask_secret(t: &str) -> (r: String)
    ensures
        r@ == masked_spec(t@),
{
    let n = t.unicode_len();
    if n > 8 {
        let prefix = t.substring_char(0, 8);
        prefix.to_owned().concat("****")
    } else {
        let r = String::from_str("****");
        r
    }
}

/// What a secret's shown prefix looks like in the provider list: up to its
/// first eight characters, then `****`.
pub open spec fn masked_prefix_spec(t: Seq<char>) -> Seq<char> {
    if t.len() < 8 {
        t + "****"@
    } else {
        t.subrange(0, 8) + "****"@
    }
}

/// Masks a secret for the provider list.
pub fn mask_secret_prefix(t: &str) -> (r: String)
    ensures
        r@ == masked_prefix_spec(t@),
{
    let n = t.unicode_len();
    let cut = if n < 8 {
        n
    } else {
        8
    };
    let prefix = t.substring_char(0, cut);
    proof {
        if t@.len() >= 8 {
        } else {
            assert(t@.subrange(0, t@.len() as int) =~= t@);
        }
    }
    prefix.to_owned().concat("****")
}

} // verus!
