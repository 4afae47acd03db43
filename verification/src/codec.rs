//! Text encoding of the store.
//!
//! The persisted file is a small TOML-shaped document: an optional
//! `current_provider` line followed by one `[[providers]]` section per
//! record, each holding `name`, `api_url`, `token` and, when set, `model`
//! as double-quoted values with `\` escapes for quotes and backslashes.
//! `render_config` and `parse_config` define the format at the ghost level;
//! `lemma_config_round_trip` proves that parsing a rendered configuration
//! gives back exactly the value that was rendered, secrets included.

use vstd::prelude::*;
use crate::config::{Config, ConfigView, Provider, ProviderView};
use crate::strutil::{push_char, str_to_chars};

verus! {

/// Why loading persisted state failed.
#[derive(Debug)]
pub enum StoreError {
    /// The storage could not be read or written.
    IoError,
    /// The file exists but is not a well-formed configuration document.
    FormatError,
}

impl StoreError {
    /// A fixed description of the failure; callers add the path.
    pub fn message(&self) -> (r: &'static str)
        ensures
            match self {
                StoreError::IoError => r@ == "Failed to access config file"@,
                StoreError::FormatError => r@ == "Invalid config file format"@,
            },
    {
        match self {
            StoreError::IoError => "Failed to access config file",
            StoreError::FormatError => "Invalid config file format",
        }
    }
}

// ---------------------------------------------------------------------------
// The format, at the ghost level.
// ---------------------------------------------------------------------------

/// How one character appears inside a quoted value.
pub open spec fn esc_char(c: char) -> Seq<char> {
    if c == '"' || c == '\\' {
        seq!['\\', c]
    } else {
        seq![c]
    }
}

/// A value's characters with quotes and backslashes escaped.
pub open spec fn escape(s: Seq<char>) -> Seq<char>
    decreases s.len(),
{
    if s.len() == 0 {
        Seq::empty()
    } else {
        esc_char(s[0]) + escape(s.subrange(1, s.len() as int))
    }
}

/// One `key = "value"` line, newline included.
pub open spec fn render_kv(key: Seq<char>, value: Seq<char>) -> Seq<char> {
    key + " = \""@ + escape(value) + "\"\n"@
}

/// One provider section.
pub open spec fn render_provider(p: ProviderView) -> Seq<char> {
    "[[providers]]\n"@ + render_kv("name"@, p.name) + render_kv("api_url"@, p.api_url)
        + render_kv("token"@, p.token) + match p.model {
        Some(m) => render_kv("model"@, m),
        None => Seq::<char>::empty(),
    }
}

/// All provider sections, in order.
pub open spec fn render_providers(ps: Seq<ProviderView>) -> Seq<char>
    decreases ps.len(),
{
    if ps.len() == 0 {
        Seq::empty()
    } else {
        render_provider(ps[0]) + render_providers(ps.subrange(1, ps.len() as int))
    }
}

/// The whole document.
pub open spec fn render_config(c: ConfigView) -> Seq<char> {
    (match c.current_provider {
        Some(n) => render_kv("current_provider"@, n),
        None => Seq::<char>::empty(),
    }) + render_providers(c.providers)
}

/// Whether `t` begins with `p`.
pub open spec fn starts_with(t: Seq<char>, p: Seq<char>) -> bool {
    t.len() >= p.len() && t.subrange(0, p.len() as int) == p
}

/// Reads a quoted value from the opening quote's far side: the unescaped
/// characters up to an unescaped quote, which must be followed by a newline.
/// Yields the value and what follows the newline.
pub open spec fn parse_qstr(t: Seq<char>) -> Option<(Seq<char>, Seq<char>)>
    decreases t.len(),
{
    if t.len() == 0 {
        None
    } else if t[0] == '\\' {
        if t.len() >= 2 {
            match parse_qstr(t.subrange(2, t.len() as int)) {
                Some(r) => Some((seq![t[1]] + r.0, r.1)),
                None => None,
            }
        } else {
            None
        }
    } else if t[0] == '"' {
        if t.len() >= 2 && t[1] == '\n' {
            Some((Seq::empty(), t.subrange(2, t.len() as int)))
        } else {
            None
        }
    } else {
        match parse_qstr(t.subrange(1, t.len() as int)) {
            Some(r) => Some((seq![t[0]] + r.0, r.1)),
            None => None,
        }
    }
}

/// Reads one `key = "value"` line.
pub open spec fn parse_kv(key: Seq<char>, t: Seq<char>) -> Option<(Seq<char>, Seq<char>)> {
    let p = key + " = \""@;
    if starts_with(t, p) {
        parse_qstr(t.subrange(p.len() as int, t.len() as int))
    } else {
        None
    }
}

/// Reads one provider section: the header, the three mandatory lines, and
/// the optional `model` line.
pub open spec fn parse_provider(t: Seq<char>) -> Option<(ProviderView, Seq<char>)> {
    if starts_with(t, "[[providers]]\n"@) {
        let t1 = t.subrange("[[providers]]\n"@.len() as int, t.len() as int);
        match parse_kv("name"@, t1) {
            Some((name, t2)) => match parse_kv("api_url"@, t2) {
                Some((api_url, t3)) => match parse_kv("token"@, t3) {
                    Some((token, t4)) => match parse_kv("model"@, t4) {
                        Some((m, t5)) => Some(
                            (ProviderView { name, api_url, token, model: Some(m) }, t5),
                        ),
                        None => Some((ProviderView { name, api_url, token, model: None }, t4)),
                    },
                    None => None,
                },
                None => None,
            },
            None => None,
        }
    } else {
        None
    }
}

/// Reads provider sections until the text runs out; anything else is a
/// format error.
pub open spec fn parse_providers(t: Seq<char>) -> Option<Seq<ProviderView>>
    decreases t.len(),
{
    if t.len() == 0 {
        Some(Seq::empty())
    } else {
        match parse_provider(t) {
            Some((p, rest)) => if rest.len() < t.len() {
                match parse_providers(rest) {
                    Some(ps) => Some(seq![p] + ps),
                    None => None,
                }
            } else {
                None
            },
            None => None,
        }
    }
}

/// Reads a whole document.
pub open spec fn parse_config(t: Seq<char>) -> Option<ConfigView> {
    match parse_kv("current_provider"@, t) {
        Some((n, rest)) => match parse_providers(rest) {
            Some(ps) => Some(ConfigView { providers: ps, current_provider: Some(n) }),
            None => None,
        },
        None => match parse_providers(t) {
            Some(ps) => Some(ConfigView { providers: ps, current_provider: None }),
            None => None,
        },
    }
}

// ---------------------------------------------------------------------------
// The round trip: parsing a rendered document restores the exact value.
// ---------------------------------------------------------------------------

proof fn lemma_parse_qstr_escape(s: Seq<char>, rest: Seq<char>)
    ensures
        parse_qstr(escape(s) + "\"\n"@ + rest) == Some((s, rest)),
    decreases s.len(),
{
    reveal_strlit("\"\n");
    let endlit = "\"\n"@;
    let t = escape(s) + endlit + rest;
    if s.len() == 0 {
        assert(escape(s) =~= Seq::<char>::empty());
        assert(t.len() == 2 + rest.len());
        assert(t[0] == '"');
        assert(t[1] == '\n');
        assert(t.subrange(2, t.len() as int) =~= rest);
        assert(s =~= Seq::<char>::empty());
    } else {
        let c = s[0];
        let s1 = s.subrange(1, s.len() as int);
        lemma_parse_qstr_escape(s1, rest);
        assert(escape(s) == esc_char(c) + escape(s1));
        assert(seq![c] + s1 =~= s);
        if c == '"' || c == '\\' {
            assert(t[0] == '\\');
            assert(t.len() >= 2);
            assert(t[1] == c);
            assert(t.subrange(2, t.len() as int) =~= escape(s1) + endlit + rest);
        } else {
            assert(t[0] == c);
            assert(t[0] != '\\' && t[0] != '"');
            assert(t.subrange(1, t.len() as int) =~= escape(s1) + endlit + rest);
        }
    }
}

proof fn lemma_parse_kv_render(key: Seq<char>, value: Seq<char>, rest: Seq<char>)
    ensures
        parse_kv(key, render_kv(key, value) + rest) == Some((value, rest)),
{
    let p = key + " = \""@;
    let t = render_kv(key, value) + rest;
    assert(t =~= p + (escape(value) + "\"\n"@ + rest));
    assert(t.subrange(0, p.len() as int) =~= p);
    assert(starts_with(t, p));
    assert(t.subrange(p.len() as int, t.len() as int) =~= escape(value) + "\"\n"@ + rest);
    lemma_parse_qstr_escape(value, rest);
}

/// A `key = "` prefix check fails on text that begins with a different
/// character than the key does, and on empty text.
proof fn lemma_parse_kv_miss(key: Seq<char>, t: Seq<char>)
    requires
        key.len() > 0,
        t.len() == 0 || t[0] != key[0],
    ensures
        parse_kv(key, t) is None,
{
    let p = key + " = \""@;
    reveal_strlit(" = \"");
    assert(p.len() > 0);
    assert(p[0] == key[0]);
    if t.len() == 0 {
        assert(!starts_with(t, p));
    } else {
        if starts_with(t, p) {
            assert(t.subrange(0, p.len() as int)[0] == t[0]);
            assert(false);
        }
    }
}

proof fn lemma_parse_provider_render(p: ProviderView, rest: Seq<char>)
    requires
        rest.len() == 0 || rest[0] == '[',
    ensures
        parse_provider(render_provider(p) + rest) == Some((p, rest)),
        (render_provider(p) + rest).len() > rest.len(),
{
    reveal_strlit("[[providers]]\n");
    reveal_strlit("name");
    reveal_strlit("api_url");
    reveal_strlit("token");
    reveal_strlit("model");
    let hdr = "[[providers]]\n"@;
    let t = render_provider(p) + rest;
    let tail = match p.model {
        Some(m) => render_kv("model"@, m),
        None => Seq::<char>::empty(),
    };
    let t1 = render_kv("name"@, p.name) + (render_kv("api_url"@, p.api_url) + (render_kv(
        "token"@,
        p.token,
    ) + (tail + rest)));
    assert(t =~= hdr + t1);
    assert(t.subrange(0, hdr.len() as int) =~= hdr);
    assert(starts_with(t, hdr));
    assert(t.subrange(hdr.len() as int, t.len() as int) =~= t1);
    let t2 = render_kv("api_url"@, p.api_url) + (render_kv("token"@, p.token) + (tail + rest));
    lemma_parse_kv_render("name"@, p.name, t2);
    assert(t1 =~= render_kv("name"@, p.name) + t2);
    let t3 = render_kv("token"@, p.token) + (tail + rest);
    lemma_parse_kv_render("api_url"@, p.api_url, t3);
    assert(t2 =~= render_kv("api_url"@, p.api_url) + t3);
    let t4 = tail + rest;
    lemma_parse_kv_render("token"@, p.token, t4);
    assert(t3 =~= render_kv("token"@, p.token) + t4);
    match p.model {
        Some(m) => {
            lemma_parse_kv_render("model"@, m, rest);
            assert(t4 =~= render_kv("model"@, m) + rest);
        },
        None => {
            assert(t4 =~= rest);
            assert("model"@[0] == 'm');
            lemma_parse_kv_miss("model"@, t4);
        },
    }
    assert(render_provider(p).len() >= hdr.len());
    assert(t.len() == render_provider(p).len() + rest.len());
}

/// A rendered provider list is empty or opens a section header.
proof fn lemma_render_providers_head(ps: Seq<ProviderView>)
    ensures
        render_providers(ps).len() == 0 || render_providers(ps)[0] == '[',
{
    reveal_strlit("[[providers]]\n");
    if ps.len() != 0 {
        let hdr = "[[providers]]\n"@;
        assert(render_provider(ps[0])[0] == hdr[0]);
        assert(render_providers(ps)[0] == render_provider(ps[0])[0]);
    }
}

proof fn lemma_parse_providers_render(ps: Seq<ProviderView>)
    ensures
        parse_providers(render_providers(ps)) == Some(ps),
    decreases ps.len(),
{
    if ps.len() == 0 {
        assert(render_providers(ps) =~= Seq::<char>::empty());
        assert(ps =~= Seq::<ProviderView>::empty());
    } else {
        let tail = ps.subrange(1, ps.len() as int);
        let rest = render_providers(tail);
        let t = render_providers(ps);
        lemma_render_providers_head(tail);
        lemma_parse_provider_render(ps[0], rest);
        lemma_parse_providers_render(tail);
        assert(t == render_provider(ps[0]) + rest);
        assert(t.len() > rest.len());
        assert(seq![ps[0]] + tail =~= ps);
    }
}

/// Parsing a rendered configuration restores exactly the configuration that
/// was rendered — every provider, in order, with every field verbatim,
/// secrets included, and the same selection.
pub proof fn lemma_config_round_trip(c: ConfigView)
    ensures
        parse_config(render_config(c)) == Some(c),
{
    reveal_strlit("current_provider");
    let t = render_config(c);
    match c.current_provider {
        Some(n) => {
            let rest = render_providers(c.providers);
            assert(t == render_kv("current_provider"@, n) + rest);
            lemma_parse_kv_render("current_provider"@, n, rest);
            lemma_parse_providers_render(c.providers);
        },
        None => {
            assert(t =~= render_providers(c.providers));
            lemma_render_providers_head(c.providers);
            assert("current_provider"@[0] == 'c');
            lemma_parse_kv_miss("current_provider"@, t);
            lemma_parse_providers_render(c.providers);
        },
    }
}

// ---------------------------------------------------------------------------
// The executable renderer.
// ---------------------------------------------------------------------------

proof fn lemma_escape_snoc(s: Seq<char>, c: char)
    ensures
        escape(s.push(c)) == escape(s) + esc_char(c),
    decreases s.len(),
{
    let t = s.push(c);
    if s.len() == 0 {
        assert(t.len() == 1);
        assert(t[0] == c);
        assert(t.subrange(1, t.len() as int) =~= Seq::<char>::empty());
        assert(escape(Seq::<char>::empty()) =~= Seq::<char>::empty());
        assert(escape(t) == esc_char(c) + escape(t.subrange(1, t.len() as int)));
        assert(escape(t) =~= esc_char(c));
        assert(escape(s) + esc_char(c) =~= esc_char(c));
    } else {
        assert(t[0] == s[0]);
        assert(t.subrange(1, t.len() as int) =~= s.subrange(1, s.len() as int).push(c));
        lemma_escape_snoc(s.subrange(1, s.len() as int), c);
        assert(esc_char(s[0]) + (escape(s.subrange(1, s.len() as int)) + esc_char(c)) =~= (esc_char(
            s[0],
        ) + escape(s.subrange(1, s.len() as int))) + esc_char(c));
    }
}

proof fn lemma_render_providers_snoc(ps: Seq<ProviderView>, p: ProviderView)
    ensures
        render_providers(ps.push(p)) == render_providers(ps) + render_provider(p),
    decreases ps.len(),
{
    let t = ps.push(p);
    if ps.len() == 0 {
        assert(t.len() == 1);
        assert(t[0] == p);
        assert(t.subrange(1, t.len() as int) =~= Seq::<ProviderView>::empty());
        assert(render_providers(Seq::<ProviderView>::empty()) =~= Seq::<char>::empty());
        assert(render_providers(t) == render_provider(p) + render_providers(
            t.subrange(1, t.len() as int),
        ));
        assert(render_providers(t) =~= render_provider(p));
        assert(render_providers(ps) + render_provider(p) =~= render_provider(p));
    } else {
        assert(t[0] == ps[0]);
        assert(t.subrange(1, t.len() as int) =~= ps.subrange(1, ps.len() as int).push(p));
        lemma_render_providers_snoc(ps.subrange(1, ps.len() as int), p);
        assert(render_provider(ps[0]) + (render_providers(ps.subrange(1, ps.len() as int))
            + render_provider(p)) =~= (render_provider(ps[0]) + render_providers(
            ps.subrange(1, ps.len() as int),
        )) + render_provider(p));
    }
}

fn append_escaped(out: &mut String, v: &str)
    ensures
        final(out)@ == old(out)@ + escape(v@),
{
    let chars = str_to_chars(v);
    let n = chars.len();
    proof {
        assert(out@ =~= old(out)@ + escape(v@.subrange(0, 0)));
    }
    let mut i: usize = 0;
    while i < n
        invariant
            i <= n,
            n == chars@.len(),
            chars@ == v@,
            out@ == old(out)@ + escape(v@.subrange(0, i as int)),
        decreases n - i,
    {
        let c = chars[i];
        proof {
            assert(v@.subrange(0, i as int + 1) =~= v@.subrange(0, i as int).push(v@[i as int]));
            lemma_escape_snoc(v@.subrange(0, i as int), v@[i as int]);
        }
        if c == '"' || c == '\\' {
            push_char(out, '\\');
            push_char(out, c);
        } else {
            push_char(out, c);
        }
        proof {
            assert(out@ =~= old(out)@ + escape(v@.subrange(0, i as int + 1)));
        }
        i += 1;
    }
    proof {
        assert(v@.subrange(0, v@.len() as int) =~= v@);
    }
}

fn append_kv(out: &mut String, key: &str, value: &str)
    ensures
        final(out)@ == old(out)@ + render_kv(key@, value@),
{
    out.append(key);
    out.append(" = \"");
    append_escaped(out, value);
    out.append("\"\n");
    proof {
        assert(out@ =~= old(out)@ + render_kv(key@, value@));
    }
}

fn append_provider(out: &mut String, p: &Provider)
    ensures
        final(out)@ == old(out)@ + render_provider(p@),
{
    out.append("[[providers]]\n");
    append_kv(out, "name", p.name.as_str());
    append_kv(out, "api_url", p.api_url.as_str());
    append_kv(out, "token", p.token.as_str());
    match &p.model {
        Some(m) => append_kv(out, "model", m.as_str()),
        None => {},
    }
    proof {
        assert(out@ =~= old(out)@ + render_provider(p@));
    }
}

impl Config {
    /// Renders the whole store as the text that `load_from_string` reads
    /// back; persisting is a whole-file replace of this text.
    pub fn save_to_string(&self) -> (r: String)
        ensures
            r@ == render_config(self@),
    {
        let mut out = String::new();
        match &self.current_provider {
            Some(n) => append_kv(&mut out, "current_provider", n.as_str()),
            None => {},
        }
        let ghost prefix = out@;
        proof {
            assert(out@ =~= prefix + render_providers(self@.providers.subrange(0, 0)));
        }
        let n = self.providers.len();
        let mut i: usize = 0;
        while i < n
            invariant
                i <= n,
                n == self.providers.len(),
                self@.providers.len() == n,
                out@ == prefix + render_providers(self@.providers.subrange(0, i as int)),
                prefix == (match self@.current_provider {
                    Some(name) => render_kv("current_provider"@, name),
                    None => Seq::<char>::empty(),
                }),
            decreases n - i,
        {
            proof {
                assert(self.providers[i as int]@ == self@.providers[i as int]);
            }
            append_provider(&mut out, &self.providers[i]);
            proof {
                assert(self@.providers.subrange(0, i as int + 1) =~= self@.providers.subrange(
                    0,
                    i as int,
                ).push(self@.providers[i as int]));
                lemma_render_providers_snoc(
                    self@.providers.subrange(0, i as int),
                    self@.providers[i as int],
                );
                assert(out@ =~= prefix + render_providers(
                    self@.providers.subrange(0, i as int + 1),
                ));
            }
            i += 1;
        }
        proof {
            assert(self@.providers.subrange(0, self@.providers.len() as int) =~= self@.providers);
            assert(out@ =~= render_config(self@));
        }
        out
    }
}

// ---------------------------------------------------------------------------
// The executable parser.
// ---------------------------------------------------------------------------

/// What is left of `t` from position `i` on.
pub open spec fn suffix_at(t: Seq<char>, i: int) -> Seq<char> {
    t.subrange(i, t.len() as int)
}

fn starts_with_at(v: &Vec<char>, start: usize, p: &str) -> (r: bool)
    requires
        start <= v.len(),
    ensures
        r == starts_with(suffix_at(v@, start as int), p@),
{
    let ghost t = suffix_at(v@, start as int);
    let plen = p.unicode_len();
    if v.len() - start < plen {
        proof {
            assert(t.len() < p@.len());
        }
        return false;
    }
    let mut j: usize = 0;
    while j < plen
        invariant
            j <= plen,
            plen == p@.len(),
            start + plen <= v.len(),
            t == suffix_at(v@, start as int),
            forall|k: int| 0 <= k < j ==> v@[start + k] == p@[k],
        decreases plen - j,
    {
        if v[start + j] != p.get_char(j) {
            proof {
                if starts_with(t, p@) {
                    assert(t.subrange(0, plen as int)[j as int] == p@[j as int]);
                    assert(t[j as int] == v@[start + j]);
                    assert(false);
                }
            }
            return false;
        }
        j += 1;
    }
    proof {
        assert(t.subrange(0, plen as int) =~= p@);
    }
    true
}

fn parse_qstr_at(v: &Vec<char>, start: usize) -> (r: Option<(String, usize)>)
    requires
        start <= v.len(),
    ensures
        match r {
            Some(pair) => {
                &&& start <= pair.1 <= v.len()
                &&& parse_qstr(suffix_at(v@, start as int)) == Some(
                    (pair.0@, suffix_at(v@, pair.1 as int)),
                )
            },
            None => parse_qstr(suffix_at(v@, start as int)) is None,
        },
    decreases v.len() - start,
{
    let ghost t = suffix_at(v@, start as int);
    if start == v.len() {
        proof {
            assert(t.len() == 0);
        }
        return None;
    }
    let c = v[start];
    proof {
        assert(t[0] == v@[start as int]);
        assert(t.len() == v@.len() - start);
    }
    if c == '\\' {
        if start + 1 < v.len() {
            proof {
                assert(t.subrange(2, t.len() as int) =~= suffix_at(v@, start as int + 2));
                assert(t[1] == v@[start as int + 1]);
            }
            match parse_qstr_at(v, start + 2) {
                Some((s, end)) => {
                    let mut s2 = String::new();
                    push_char(&mut s2, v[start + 1]);
                    s2.append(s.as_str());
                    proof {
                        assert(s2@ =~= seq![t[1]] + s@);
                    }
                    Some((s2, end))
                },
                None => None,
            }
        } else {
            proof {
                assert(t.len() == 1);
            }
            None
        }
    } else if c == '"' {
        if start + 1 < v.len() {
            let nl = v[start + 1];
            proof {
                assert(t[1] == v@[start as int + 1]);
            }
            if nl == '\n' {
                proof {
                    assert(t.subrange(2, t.len() as int) =~= suffix_at(v@, start as int + 2));
                }
                let empty_s = String::new();
                Some((empty_s, start + 2))
            } else {
                None
            }
        } else {
            proof {
                assert(t.len() == 1);
            }
            None
        }
    } else {
        proof {
            assert(t.subrange(1, t.len() as int) =~= suffix_at(v@, start as int + 1));
        }
        match parse_qstr_at(v, start + 1) {
            Some((s, end)) => {
                let mut s2 = String::new();
                push_char(&mut s2, c);
                s2.append(s.as_str());
                proof {
                    assert(s2@ =~= seq![t[0]] + s@);
                }
                Some((s2, end))
            },
            None => None,
        }
    }
}

fn parse_kv_at(v: &Vec<char>, start: usize, key: &str) -> (r: Option<(String, usize)>)
    requires
        start <= v.len(),
    ensures
        match r {
            Some(pair) => {
                &&& start <= pair.1 <= v.len()
                &&& parse_kv(key@, suffix_at(v@, start as int)) == Some(
                    (pair.0@, suffix_at(v@, pair.1 as int)),
                )
            },
            None => parse_kv(key@, suffix_at(v@, start as int)) is None,
        },
{
    let ghost t = suffix_at(v@, start as int);
    let prefix = key.to_owned().concat(" = \"");
    proof {
        assert(prefix@ == key@ + " = \""@);
    }
    if !starts_with_at(v, start, prefix.as_str()) {
        return None;
    }
    let plen = prefix.as_str().unicode_len();
    proof {
        assert(t.len() >= plen);
        assert(t.subrange(plen as int, t.len() as int) =~= suffix_at(
            v@,
            start as int + plen as int,
        ));
    }
    parse_qstr_at(v, start + plen)
}

fn parse_provider_at(v: &Vec<char>, start: usize) -> (r: Option<(Provider, usize)>)
    requires
        start <= v.len(),
    ensures
        match r {
            Some(pair) => {
                &&& start <= pair.1 <= v.len()
                &&& parse_provider(suffix_at(v@, start as int)) == Some(
                    (pair.0@, suffix_at(v@, pair.1 as int)),
                )
            },
            None => parse_provider(suffix_at(v@, start as int)) is None,
        },
{
    let ghost t = suffix_at(v@, start as int);
    let hdr = "[[providers]]\n";
    if !starts_with_at(v, start, hdr) {
        return None;
    }
    let hlen = hdr.unicode_len();
    proof {
        assert(t.len() >= hlen);
        assert(t.subrange(hlen as int, t.len() as int) =~= suffix_at(
            v@,
            start as int + hlen as int,
        ));
    }
    let t1 = start + hlen;
    let (name, t2) = match parse_kv_at(v, t1, "name") {
        Some(x) => x,
        None => {
            return None;
        },
    };
    let (api_url, t3) = match parse_kv_at(v, t2, "api_url") {
        Some(x) => x,
        None => {
            return None;
        },
    };
    let (token, t4) = match parse_kv_at(v, t3, "token") {
        Some(x) => x,
        None => {
            return None;
        },
    };
    match parse_kv_at(v, t4, "model") {
        Some((m, t5)) => Some((Provider { name, api_url, token, model: Some(m) }, t5)),
        None => Some((Provider { name, api_url, token, model: None }, t4)),
    }
}

fn parse_providers_at(v: &Vec<char>, start: usize) -> (r: Option<Vec<Provider>>)
    requires
        start <= v.len(),
    ensures
        match r {
            Some(ps) => parse_providers(suffix_at(v@, start as int)) == Some(ps.deep_view()),
            None => parse_providers(suffix_at(v@, start as int)) is None,
        },
{
    let mut acc: Vec<Provider> = Vec::new();
    let mut i: usize = start;
    loop
        invariant
            start <= i <= v.len(),
            (match parse_providers(suffix_at(v@, i as int)) {
                Some(ps) => parse_providers(suffix_at(v@, start as int)) == Some(
                    acc.deep_view() + ps,
                ),
                None => parse_providers(suffix_at(v@, start as int)) is None,
            }),
        decreases v.len() - i,
    {
        let ghost t = suffix_at(v@, i as int);
        if i == v.len() {
            proof {
                assert(t.len() == 0);
                assert(acc.deep_view() + Seq::<ProviderView>::empty() =~= acc.deep_view());
            }
            return Some(acc);
        }
        proof {
            assert(t.len() > 0);
        }
        match parse_provider_at(v, i) {
            Some((p, end)) => {
                if end > i {
                    let ghost acc_old = acc.deep_view();
                    let ghost pv = p@;
                    acc.push(p);
                    proof {
                        assert(acc.deep_view() =~= acc_old.push(pv));
                        assert(suffix_at(v@, end as int).len() < t.len());
                        match parse_providers(suffix_at(v@, end as int)) {
                            Some(ps) => {
                                assert(parse_providers(t) == Some(seq![pv] + ps));
                                assert(acc_old + (seq![pv] + ps) =~= acc_old.push(pv) + ps);
                            },
                            None => {
                                assert(parse_providers(t) is None);
                            },
                        }
                    }
                    i = end;
                } else {
                    proof {
                        assert(suffix_at(v@, end as int).len() == t.len());
                        assert(parse_providers(t) is None);
                    }
                    return None;
                }
            },
            None => {
                return None;
            },
        }
    }
}

impl Config {
    /// Reads a configuration document back.  An empty text yields the empty
    /// default; text that deviates from the format is a `FormatError`, never
    /// repaired or discarded.
    pub fn load_from_string(s: &str) -> (r: Result<Config, StoreError>)
        ensures
            match r {
                Ok(c) => parse_config(s@) == Some(c@),
                Err(e) => parse_config(s@) is None && e is FormatError,
            },
    {
        let v = str_to_chars(s);
        proof {
            assert(suffix_at(v@, 0) =~= s@);
        }
        let (cur, rest_start): (Option<String>, usize) = match parse_kv_at(&v, 0, "current_provider") {
            Some((n, e)) => (Some(n), e),
            None => (None, 0),
        };
        match parse_providers_at(&v, rest_start) {
            Some(ps) => Ok(Config { providers: ps, current_provider: cur }),
            None => Err(StoreError::FormatError),
        }
    }
}

} // verus!
