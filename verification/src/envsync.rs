//! Environment-variable synchronization.
//!
//! A provider is mirrored into a fixed set of six environment variables: the
//! auth token, the base URL, and — when a model override is set — the primary
//! model plus three tier-default aliases, all equal to the model.  This
//! module computes, as plain values, what a session's environment should
//! hold: the assignments to apply, the shell `export` text for bridge mode,
//! and the `unset` text that clears all six variables.  Applying them to a
//! real process environment is the caller's business.

use vstd::prelude::*;
use crate::config::{Provider, ProviderView};
use crate::strutil::str_eq;

verus! {

pub const ENV_AUTH_TOKEN: &'static str = "ANTHROPIC_AUTH_TOKEN";

pub const ENV_BASE_URL: &'static str = "ANTHROPIC_BASE_URL";

pub const ENV_MODEL: &'static str = "ANTHROPIC_MODEL";

pub const ENV_DEFAULT_OPUS_MODEL: &'static str = "ANTHROPIC_DEFAULT_OPUS_MODEL";

pub const ENV_DEFAULT_SONNET_MODEL: &'static str = "ANTHROPIC_DEFAULT_SONNET_MODEL";

pub const ENV_DEFAULT_HAIKU_MODEL: &'static str = "ANTHROPIC_DEFAULT_HAIKU_MODEL";

/// Control variable through which the shell wrapper requests bridge mode.
pub const ENV_SHELL_INTEGRATION: &'static str = "CCE_SHELL_INTEGRATION";

/// One variable-to-value binding for a session's environment.
pub struct EnvAssignment {
    pub name: String,
    pub value: String,
}

/// Ghost image of an `EnvAssignment`.
pub struct EnvAssignmentView {
    pub name: Seq<char>,
    pub value: Seq<char>,
}

impl View for EnvAssignment {
    type V = EnvAssignmentView;

    open spec fn view(&self) -> EnvAssignmentView {
        EnvAssignmentView { name: self.name@, value: self.value@ }
    }
}

impl DeepView for EnvAssignment {
    type V = EnvAssignmentView;

    open spec fn deep_view(&self) -> EnvAssignmentView {
        self.view()
    }
}

/// The bindings a session should carry for this provider, in the fixed
/// order: auth token, base URL, then the four model variables when a model
/// is set.
pub open spec fn assignments_spec(p: ProviderView) -> Seq<EnvAssignmentView> {
    let base = seq![
        EnvAssignmentView { name: ENV_AUTH_TOKEN@, value: p.token },
        EnvAssignmentView { name: ENV_BASE_URL@, value: p.api_url },
    ];
    match p.model {
        Some(m) => base + seq![
            EnvAssignmentView { name: ENV_MODEL@, value: m },
            EnvAssignmentView { name: ENV_DEFAULT_OPUS_MODEL@, value: m },
            EnvAssignmentView { name: ENV_DEFAULT_SONNET_MODEL@, value: m },
            EnvAssignmentView { name: ENV_DEFAULT_HAIKU_MODEL@, value: m },
        ],
        None => base,
    }
}

/// The names of all six recognized variables, in the fixed order.
pub open spec fn managed_names_spec() -> Seq<Seq<char>> {
    seq![
        ENV_AUTH_TOKEN@,
        ENV_BASE_URL@,
        ENV_MODEL@,
        ENV_DEFAULT_OPUS_MODEL@,
        ENV_DEFAULT_SONNET_MODEL@,
        ENV_DEFAULT_HAIKU_MODEL@,
    ]
}

/// The bindings to apply to a process for this provider; two when no model
/// is set, six when one is.
pub fn env_assignments(p: &Provider) -> (v: Vec<EnvAssignment>)
    ensures
        v.deep_view() == assignments_spec(p@),
{
    let mut v: Vec<EnvAssignment> = Vec::new();
    v.push(EnvAssignment { name: ENV_AUTH_TOKEN.to_owned(), value: p.token.clone() });
    v.push(EnvAssignment { name: ENV_BASE_URL.to_owned(), value: p.api_url.clone() });
    match &p.model {
        Some(m) => {
            v.push(EnvAssignment { name: ENV_MODEL.to_owned(), value: m.clone() });
            v.push(EnvAssignment { name: ENV_DEFAULT_OPUS_MODEL.to_owned(), value: m.clone() });
            v.push(EnvAssignment { name: ENV_DEFAULT_SONNET_MODEL.to_owned(), value: m.clone() });
            v.push(EnvAssignment { name: ENV_DEFAULT_HAIKU_MODEL.to_owned(), value: m.clone() });
        },
        None => {},
    }
    proof {
        assert(v.deep_view() =~= assignments_spec(p@));
    }
    v
}

/// The six recognized variable names, for a caller that clears them all.
pub fn managed_env_var_names() -> (v: Vec<String>)
    ensures
        v.deep_view() == managed_names_spec(),
{
    let mut v: Vec<String> = Vec::new();
    v.push(ENV_AUTH_TOKEN.to_owned());
    v.push(ENV_BASE_URL.to_owned());
    v.push(ENV_MODEL.to_owned());
    v.push(ENV_DEFAULT_OPUS_MODEL.to_owned());
    v.push(ENV_DEFAULT_SONNET_MODEL.to_owned());
    v.push(ENV_DEFAULT_HAIKU_MODEL.to_owned());
    proof {
        assert(v.deep_view() =~= managed_names_spec());
    }
    v
}

/// One shell `export` statement; the value is double-quoted verbatim, with
/// no escaping of embedded quotes attempted.
pub open spec fn export_line(name: Seq<char>, value: Seq<char>) -> Seq<char> {
    "export "@ + name + "=\""@ + value + "\""@
}

/// One shell `unset` statement.
pub open spec fn unset_line(name: Seq<char>) -> Seq<char> {
    "unset "@ + name
}

/// The full `export` batch for a provider: one line per binding of
/// `assignments_spec`, in the same order, joined by single newlines.
pub open spec fn export_commands_spec(p: ProviderView) -> Seq<char> {
    let base = export_line(ENV_AUTH_TOKEN@, p.token) + "\n"@ + export_line(
        ENV_BASE_URL@,
        p.api_url,
    );
    match p.model {
        Some(m) => base + "\n"@ + export_line(ENV_MODEL@, m) + "\n"@ + export_line(
            ENV_DEFAULT_OPUS_MODEL@,
            m,
        ) + "\n"@ + export_line(ENV_DEFAULT_SONNET_MODEL@, m) + "\n"@ + export_line(
            ENV_DEFAULT_HAIKU_MODEL@,
            m,
        ),
        None => base,
    }
}

/// The full `unset` batch: always all six variables, in the fixed order.
pub open spec fn unset_commands_spec() -> Seq<char> {
    unset_line(ENV_AUTH_TOKEN@) + "\n"@ + unset_line(ENV_BASE_URL@) + "\n"@ + unset_line(
        ENV_MODEL@,
    ) + "\n"@ + unset_line(ENV_DEFAULT_OPUS_MODEL@) + "\n"@ + unset_line(
        ENV_DEFAULT_SONNET_MODEL@,
    ) + "\n"@ + unset_line(ENV_DEFAULT_HAIKU_MODEL@)
}

fn push_export_line(out: &mut String, name: &str, value: &str)
    ensures
        final(out)@ == old(out)@ + export_line(name@, value@),
{
    out.append("export ");
    out.append(name);
    out.append("=\"");
    out.append(value);
    out.append("\"");
}

/// Renders the shell commands that assign and export every variable of
/// `assignments_spec`, for the bridge wrapper to evaluate.
pub fn generate_export_commands(p: &Provider) -> (r: String)
    ensures
        r@ == export_commands_spec(p@),
{
    let mut out = String::new();
    push_export_line(&mut out, ENV_AUTH_TOKEN, p.token.as_str());
    out.append("\n");
    push_export_line(&mut out, ENV_BASE_URL, p.api_url.as_str());
    match &p.model {
        Some(m) => {
            out.append("\n");
            push_export_line(&mut out, ENV_MODEL, m.as_str());
            out.append("\n");
            push_export_line(&mut out, ENV_DEFAULT_OPUS_MODEL, m.as_str());
            out.append("\n");
            push_export_line(&mut out, ENV_DEFAULT_SONNET_MODEL, m.as_str());
            out.append("\n");
            push_export_line(&mut out, ENV_DEFAULT_HAIKU_MODEL, m.as_str());
        },
        None => {},
    }
    out
}

/// Renders the shell commands that unset all six recognized variables,
/// whether or not they are currently set.
pub fn generate_unset_commands() -> (r: String)
    ensures
        r@ == unset_commands_spec(),
{
    let mut out = String::new();
    out.append("unset ");
    out.append(ENV_AUTH_TOKEN);
    out.append("\n");
    out.append("unset ");
    out.append(ENV_BASE_URL);
    out.append("\n");
    out.append("unset ");
    out.append(ENV_MODEL);
    out.append("\n");
    out.append("unset ");
    out.append(ENV_DEFAULT_OPUS_MODEL);
    out.append("\n");
    out.append("unset ");
    out.append(ENV_DEFAULT_SONNET_MODEL);
    out.append("\n");
    out.append("unset ");
    out.append(ENV_DEFAULT_HAIKU_MODEL);
    out
}

/// Whether the control variable's value requests bridge mode: it does
/// exactly when it is the string `1`.
pub fn bridge_mode_requested(value: Option<&str>) -> (r: bool)
    ensures
        r == match value {
            Some(s) => s@ == "1"@,
            None => false,
        },
{
    match value {
        Some(s) => str_eq(s, "1"),
        None => false,
    }
}

/// How many newline characters a text holds.
pub open spec fn newline_count(s: Seq<char>) -> nat
    decreases s.len(),
{
    if s.len() == 0 {
        0
    } else {
        (if s[0] == '\n' {
            1nat
        } else {
            0nat
        }) + newline_count(s.subrange(1, s.len() as int))
    }
}

/// A text free of newline characters.
pub open spec fn no_newline(s: Seq<char>) -> bool {
    forall|i: int| 0 <= i < s.len() ==> s[i] != '\n'
}

proof fn lemma_newline_count_concat(a: Seq<char>, b: Seq<char>)
    ensures
        newline_count(a + b) == newline_count(a) + newline_count(b),
    decreases a.len(),
{
    if a.len() == 0 {
        assert(a + b =~= b);
    } else {
        assert((a + b).subrange(1, (a + b).len() as int) =~= a.subrange(1, a.len() as int) + b);
        lemma_newline_count_concat(a.subrange(1, a.len() as int), b);
    }
}

proof fn lemma_no_newline_count(s: Seq<char>)
    requires
        no_newline(s),
    ensures
        newline_count(s) == 0,
    decreases s.len(),
{
    if s.len() != 0 {
        lemma_no_newline_count(s.subrange(1, s.len() as int));
    }
}

proof fn lemma_literals_no_newline()
    ensures
        no_newline("export "@),
        no_newline("unset "@),
        no_newline("=\""@),
        no_newline("\""@),
        no_newline(ENV_AUTH_TOKEN@),
        no_newline(ENV_BASE_URL@),
        no_newline(ENV_MODEL@),
        no_newline(ENV_DEFAULT_OPUS_MODEL@),
        no_newline(ENV_DEFAULT_SONNET_MODEL@),
        no_newline(ENV_DEFAULT_HAIKU_MODEL@),
        newline_count("\n"@) == 1,
{
    reveal_strlit("export ");
    reveal_strlit("unset ");
    reveal_strlit("=\"");
    reveal_strlit("\"");
    reveal_strlit("\n");
    reveal_strlit("ANTHROPIC_AUTH_TOKEN");
    reveal_strlit("ANTHROPIC_BASE_URL");
    reveal_strlit("ANTHROPIC_MODEL");
    reveal_strlit("ANTHROPIC_DEFAULT_OPUS_MODEL");
    reveal_strlit("ANTHROPIC_DEFAULT_SONNET_MODEL");
    reveal_strlit("ANTHROPIC_DEFAULT_HAIKU_MODEL");
    assert("\n"@.len() == 1);
    assert("\n"@[0] == '\n');
    assert("\n"@.subrange(1, 1) =~= Seq::<char>::empty());
    assert(newline_count(Seq::<char>::empty()) == 0);
    assert(newline_count("\n"@) == 1);
}

proof fn lemma_export_line_count(name: Seq<char>, value: Seq<char>)
    requires
        no_newline(name),
        no_newline(value),
    ensures
        newline_count(export_line(name, value)) == 0,
{
    lemma_literals_no_newline();
    lemma_newline_count_concat("export "@ + name + "=\""@ + value, "\""@);
    lemma_newline_count_concat("export "@ + name + "=\""@, value);
    lemma_newline_count_concat("export "@ + name, "=\""@);
    lemma_newline_count_concat("export "@, name);
    lemma_no_newline_count("export "@);
    lemma_no_newline_count(name);
    lemma_no_newline_count("=\""@);
    lemma_no_newline_count(value);
    lemma_no_newline_count("\""@);
}

/// The `export` batch has exactly two lines when no model is set and exactly
/// six when one is: its newline count is one, or five.  The provider's
/// values must themselves be newline-free for the count to mean lines.
pub proof fn lemma_export_commands_line_count(p: ProviderView)
    requires
        no_newline(p.token),
        no_newline(p.api_url),
        match p.model {
            Some(m) => no_newline(m),
            None => true,
        },
    ensures
        newline_count(export_commands_spec(p)) == match p.model {
            Some(m) => 5nat,
            None => 1nat,
        },
{
    lemma_literals_no_newline();
    let l1 = export_line(ENV_AUTH_TOKEN@, p.token);
    let l2 = export_line(ENV_BASE_URL@, p.api_url);
    lemma_export_line_count(ENV_AUTH_TOKEN@, p.token);
    lemma_export_line_count(ENV_BASE_URL@, p.api_url);
    lemma_newline_count_concat(l1, "\n"@);
    lemma_newline_count_concat(l1 + "\n"@, l2);
    let base = l1 + "\n"@ + l2;
    match p.model {
        Some(m) => {
            let l3 = export_line(ENV_MODEL@, m);
            let l4 = export_line(ENV_DEFAULT_OPUS_MODEL@, m);
            let l5 = export_line(ENV_DEFAULT_SONNET_MODEL@, m);
            let l6 = export_line(ENV_DEFAULT_HAIKU_MODEL@, m);
            lemma_export_line_count(ENV_MODEL@, m);
            lemma_export_line_count(ENV_DEFAULT_OPUS_MODEL@, m);
            lemma_export_line_count(ENV_DEFAULT_SONNET_MODEL@, m);
            lemma_export_line_count(ENV_DEFAULT_HAIKU_MODEL@, m);
            lemma_newline_count_concat(base, "\n"@);
            lemma_newline_count_concat(base + "\n"@, l3);
            lemma_newline_count_concat(base + "\n"@ + l3, "\n"@);
            lemma_newline_count_concat(base + "\n"@ + l3 + "\n"@, l4);
            lemma_newline_count_concat(base + "\n"@ + l3 + "\n"@ + l4, "\n"@);
            lemma_newline_count_concat(base + "\n"@ + l3 + "\n"@ + l4 + "\n"@, l5);
            lemma_newline_count_concat(base + "\n"@ + l3 + "\n"@ + l4 + "\n"@ + l5, "\n"@);
            lemma_newline_count_concat(base + "\n"@ + l3 + "\n"@ + l4 + "\n"@ + l5 + "\n"@, l6);
        },
        None => {},
    }
}

/// The `unset` batch always has exactly six lines: its newline count is
/// five, whatever the current state.
pub proof fn lemma_unset_commands_line_count()
    ensures
        newline_count(unset_commands_spec()) == 5,
{
    lemma_literals_no_newline();
    let u1 = unset_line(ENV_AUTH_TOKEN@);
    let u2 = unset_line(ENV_BASE_URL@);
    let u3 = unset_line(ENV_MODEL@);
    let u4 = unset_line(ENV_DEFAULT_OPUS_MODEL@);
    let u5 = unset_line(ENV_DEFAULT_SONNET_MODEL@);
    let u6 = unset_line(ENV_DEFAULT_HAIKU_MODEL@);
    lemma_unset_line_count(ENV_AUTH_TOKEN@);
    lemma_unset_line_count(ENV_BASE_URL@);
    lemma_unset_line_count(ENV_MODEL@);
    lemma_unset_line_count(ENV_DEFAULT_OPUS_MODEL@);
    lemma_unset_line_count(ENV_DEFAULT_SONNET_MODEL@);
    lemma_unset_line_count(ENV_DEFAULT_HAIKU_MODEL@);
    lemma_newline_count_concat(u1, "\n"@);
    lemma_newline_count_concat(u1 + "\n"@, u2);
    lemma_newline_count_concat(u1 + "\n"@ + u2, "\n"@);
    lemma_newline_count_concat(u1 + "\n"@ + u2 + "\n"@, u3);
    lemma_newline_count_concat(u1 + "\n"@ + u2 + "\n"@ + u3, "\n"@);
    lemma_newline_count_concat(u1 + "\n"@ + u2 + "\n"@ + u3 + "\n"@, u4);
    lemma_newline_count_concat(u1 + "\n"@ + u2 + "\n"@ + u3 + "\n"@ + u4, "\n"@);
    lemma_newline_count_concat(u1 + "\n"@ + u2 + "\n"@ + u3 + "\n"@ + u4 + "\n"@, u5);
    lemma_newline_count_concat(u1 + "\n"@ + u2 + "\n"@ + u3 + "\n"@ + u4 + "\n"@ + u5, "\n"@);
    lemma_newline_count_concat(u1 + "\n"@ + u2 + "\n"@ + u3 + "\n"@ + u4 + "\n"@ + u5 + "\n"@, u6);
}

proof fn lemma_unset_line_count(name: Seq<char>)
    requires
        no_newline(name),
    ensures
        newline_count(unset_line(name)) == 0,
{
    lemma_literals_no_newline();
    lemma_newline_count_concat("unset "@, name);
    lemma_no_newline_count("unset "@);
    lemma_no_newline_count(name);
}

} // verus!
