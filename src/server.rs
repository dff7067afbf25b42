//! Symbol server specifications: `SRV*<cache_path>*<server_url>`, and
//! semicolon-separated lists of them.

use vstd::prelude::*;
use crate::text::{
    chars_of, eq_ascii_case, join, lemma_join_split, eq_ignore_case, lemma_split_append_plain, lemma_split_nonempty,
    lemma_split_push_sep, push_str, split, split_chars, views,
};

verus! {

/// A server specification that does not follow the supported grammar.
#[derive(Clone, Copy, Debug, PartialEq, Eq)]
pub enum ConfigError {
    /// Only `SRV*<CACHE_PATH>*<SYMBOL_SERVER>` is supported.
    MalformedSpec,
}

/// The text of a malformed-specification error.
pub open spec fn malformed_message() -> Seq<char> {
    "Unsupported server string form; only 'SRV*<CACHE_PATH>*<SYMBOL_SERVER>' supported"@
}

impl ConfigError {
    /// A description of the error that names the supported grammar.
    pub fn message(&self) -> (r: String)
        ensures
            r@ == malformed_message(),
    {
        let mut s = String::new();
        push_str(&mut s, "Unsupported server string form; only 'SRV*<CACHE_PATH>*<SYMBOL_SERVER>' supported");
        s
    }
}

/// A symbol server, defined by the user with the syntax `SRV*<cache_path>*<server_url>`.
#[derive(Clone, Debug, PartialEq, Eq)]
pub struct SymSrvSpec {
    /// The base URL for a symbol server, e.g: `https://msdl.microsoft.com/download/symbols`
    pub server_url: String,
    /// The base path for the local symbol cache, e.g: `C:\Symcache`
    pub cache_path: String,
}

/// A list of symbol servers, defined by the user with a semicolon-separated list.
#[derive(Debug, PartialEq, Eq)]
pub struct SymSrvList(pub Box<[SymSrvSpec]>);

impl SymSrvSpec {
    /// A copy with the same fields.
    pub fn copy(&self) -> (r: SymSrvSpec)
        ensures
            server_model(r) == server_model(*self),
    {
        SymSrvSpec { server_url: self.server_url.clone(), cache_path: self.cache_path.clone() }
    }
}

impl SymSrvList {
    /// A copy holding the same specifications in the same order.
    pub fn copy(&self) -> (r: SymSrvList)
        ensures
            r.0@.len() == self.0@.len(),
            forall|i: int| 0 <= i < self.0@.len() ==> server_model(#[trigger] r.0@[i]) == server_model(self.0@[i]),
    {
        let mut v: Vec<SymSrvSpec> = Vec::new();
        let mut i: usize = 0;
        while i < self.0.len()
            invariant
                0 <= i <= self.0@.len(),
                v@.len() == i,
                forall|j: int| 0 <= j < i ==> server_model(#[trigger] v@[j]) == server_model(self.0@[j]),
            decreases self.0@.len() - i,
        {
            v.push(self.0[i].copy());
            i = i + 1;
        }
        SymSrvList(into_boxed(v))
    }
}

impl Clone for SymSrvList {
    fn clone(&self) -> Self {
        self.copy()
    }
}

/// The directive keyword.
pub open spec fn srv_keyword() -> Seq<char> {
    seq!['S', 'R', 'V']
}

/// The (cache path, server URL) pair that a specification string denotes,
/// if it is well formed: exactly three `*`-separated tokens, the first
/// being `SRV` in any ASCII case and the last, the URL, not empty.
pub open spec fn parse_server(s: Seq<char>) -> Option<(Seq<char>, Seq<char>)> {
    let t = split(s, '*');
    if t.len() == 3 && eq_ascii_case(t[0], srv_keyword()) && t[2].len() > 0 {
        Some((t[1], t[2]))
    } else {
        None
    }
}

/// The canonical text of a specification.
pub open spec fn render_server(cache_path: Seq<char>, server_url: Seq<char>) -> Seq<char> {
    seq!['S', 'R', 'V', '*'] + cache_path + seq!['*'] + server_url
}

/// The model of a specification: its cache path and its server URL.
pub open spec fn server_model(s: SymSrvSpec) -> (Seq<char>, Seq<char>) {
    (s.cache_path@, s.server_url@)
}

/// Every `;`-separated piece of `s` is a well-formed specification.
pub open spec fn list_well_formed(s: Seq<char>) -> bool {
    forall|i: int| 0 <= i < split(s, ';').len() ==> (#[trigger] parse_server(split(s, ';')[i])) is Some
}

/// `l` holds, in order, the specifications that the pieces of `s` denote.
pub open spec fn list_matches(l: Seq<SymSrvSpec>, s: Seq<char>) -> bool {
    &&& l.len() == split(s, ';').len()
    &&& forall|i: int| 0 <= i < l.len() ==> parse_server(split(s, ';')[i]) == Some(server_model(#[trigger] l[i]))
}

/// Relies on `Vec::into_boxed_slice`: the same elements, in order.
#[verifier::external_body]
fn into_boxed(v: Vec<SymSrvSpec>) -> (r: Box<[SymSrvSpec]>)
    ensures
        r@ == v@,
{
    v.into_boxed_slice()
}

impl SymSrvSpec {
    /// Parses `SRV*<cache_path>*<server_url>`; the keyword is matched
    /// without regard to ASCII case, the two other tokens are kept verbatim.
    pub fn from_str(srv: &str) -> (r: Result<SymSrvSpec, ConfigError>)
        ensures
            r is Ok <==> parse_server(srv@) is Some,
            r matches Ok(v) ==> parse_server(srv@) == Some(server_model(v)),
            r matches Err(e) ==> e == ConfigError::MalformedSpec,
    {
        let directives = split_chars(srv, '*');
        proof {
            assert(views(directives@).len() == directives@.len());
        }
        if directives.len() != 3 {
            return Err(ConfigError::MalformedSpec);
        }
        proof {
            assert(views(directives@)[0] == directives@[0]@);
            assert(views(directives@)[1] == directives@[1]@);
            assert(views(directives@)[2] == directives@[2]@);
        }
        if !eq_ignore_case(directives[0].as_str(), "SRV") {
            proof {
                reveal_strlit("SRV");
                assert("SRV"@ == srv_keyword());
            }
            return Err(ConfigError::MalformedSpec);
        }
        proof {
            reveal_strlit("SRV");
            assert("SRV"@ == srv_keyword());
        }
        if directives[2].as_str().is_empty() {
            return Err(ConfigError::MalformedSpec);
        }
        Ok(SymSrvSpec { server_url: directives[2].clone(), cache_path: directives[1].clone() })
    }

    /// The canonical text `SRV*<cache_path>*<server_url>`.
    pub fn to_string(&self) -> (r: String)
        ensures
            r@ == render_server(self.cache_path@, self.server_url@),
    {
        let mut s = String::new();
        push_str(&mut s, "SRV*");
        push_str(&mut s, self.cache_path.as_str());
        push_str(&mut s, "*");
        push_str(&mut s, self.server_url.as_str());
        proof {
            reveal_strlit("SRV*");
            reveal_strlit("*");
        }
        s
    }
}

impl SymSrvList {
    /// Parses a `;`-separated list of specifications, in order; the first
    /// malformed piece fails the whole list.
    pub fn from_str(s: &str) -> (r: Result<SymSrvList, ConfigError>)
        ensures
            r is Ok <==> list_well_formed(s@),
            r matches Ok(l) ==> list_matches(l.0@, s@),
            r matches Err(e) ==> e == ConfigError::MalformedSpec,
    {
        let pieces = split_chars(s, ';');
        let mut out: Vec<SymSrvSpec> = Vec::new();
        let mut i: usize = 0;
        while i < pieces.len()
            invariant
                0 <= i <= pieces@.len(),
                views(pieces@) == split(s@, ';'),
                out@.len() == i,
                forall|j: int| 0 <= j < i ==> parse_server(split(s@, ';')[j]) == Some(server_model(#[trigger] out@[j])),
            decreases pieces@.len() - i,
        {
            assert(views(pieces@)[i as int] == pieces@[i as int]@);
            match SymSrvSpec::from_str(pieces[i].as_str()) {
                Ok(v) => {
                    out.push(v);
                },
                Err(e) => {
                    assert(parse_server(split(s@, ';')[i as int]) is None);
                    return Err(e);
                },
            }
            i = i + 1;
        }
        assert forall|j: int| 0 <= j < split(s@, ';').len() implies (#[trigger] parse_server(
            split(s@, ';')[j],
        )) is Some by {
            assert(parse_server(split(s@, ';')[j]) == Some(server_model(out@[j])));
        }
        Ok(SymSrvList(into_boxed(out)))
    }
}

/// A specification with no `*` in its fields reads back, from its
/// canonical text, as the same cache path and server URL.
pub proof fn lemma_render_parse(cache_path: Seq<char>, server_url: Seq<char>)
    requires
        !cache_path.contains('*'),
        !server_url.contains('*'),
        server_url.len() > 0,
    ensures
        parse_server(render_server(cache_path, server_url)) == Some((cache_path, server_url)),
{
    let e = Seq::<char>::empty();
    let k = srv_keyword();
    assert(!k.contains('*')) by {
        if k.contains('*') {
            let j = choose|j: int| 0 <= j < k.len() && k[j] == '*';
        }
    }
    lemma_split_append_plain(e, k, '*');
    assert(e + k == k);
    lemma_split_push_sep(k, '*');
    lemma_split_append_plain(k.push('*'), cache_path, '*');
    let head = k.push('*') + cache_path;
    lemma_split_push_sep(head, '*');
    lemma_split_append_plain(head.push('*'), server_url, '*');
    assert(render_server(cache_path, server_url) == head.push('*') + server_url);
    let t = split(render_server(cache_path, server_url), '*');
    assert(t =~= seq![k, cache_path, server_url]);
    assert(eq_ascii_case(k, k));
}

} // verus!

verus! {

/// A specification parsed from text whose keyword is written `SRV` renders
/// back to exactly that text.
pub proof fn lemma_parse_render(s: Seq<char>)
    requires
        parse_server(s) is Some,
        split(s, '*')[0] == srv_keyword(),
    ensures
        render_server(parse_server(s)->Some_0.0, parse_server(s)->Some_0.1) == s,
{
    let t = split(s, '*');
    lemma_join_split(s, '*');
    assert(t.drop_last().drop_last() =~= seq![t[0]]);
    assert(t.drop_last() =~= seq![t[0], t[1]]);
    assert(seq![t[0], t[1]].drop_last() =~= seq![t[0]]);
    assert(render_server(t[1], t[2]) =~= t[0].push('*') + t[1] + seq!['*'] + t[2]);
    assert(join(seq![t[0]], '*') == t[0]);
    assert(seq![t[0], t[1]].last() == t[1]);
    assert(join(seq![t[0], t[1]], '*') == t[0].push('*') + t[1]);
    assert(t.last() == t[2]);
    assert(join(t, '*') =~= (t[0].push('*') + t[1]).push('*') + t[2]);
}

} // verus!
