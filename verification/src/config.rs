//! Start-up settings: command-line overrides, the proxy, the listening
//! address, the health route, and the routes to serve.
use crate::js::{literal_value, matches_grammar, Grammar};
use crate::json::{insert_entry, sorted_keys, JsonObject, JsonValue, JsonView};
use crate::text::{chars_of, seq_lt, starts_with, string_of, string_range, trim, trim_chars};
use vstd::prelude::*;

verus! {

/// The environment setting a command-line argument overrides, and its value:
/// `--proxy=` sets `KUGOU_API_PROXY`, `--platform=` sets `platform`.
pub open spec fn cli_setting(arg: Seq<char>) -> Option<(Seq<char>, Seq<char>)> {
    if arg.len() >= 8 && arg.take(8) == "--proxy="@ {
        Some(("KUGOU_API_PROXY"@, arg.skip(8)))
    } else if arg.len() >= 11 && arg.take(11) == "--platform="@ {
        Some(("platform"@, arg.skip(11)))
    } else {
        None
    }
}

/// The setting a command-line argument overrides (see [`cli_setting`]).
pub fn cli_override(arg: &str) -> (r: Option<(String, String)>)
    ensures
        match r {
            Some((k, v)) => cli_setting(arg@) == Some((k@, v@)),
            None => cli_setting(arg@) is None,
        },
{
    proof {
        reveal_strlit("--proxy=");
        reveal_strlit("--platform=");
    }
    let cs = chars_of(arg);
    let proxy = chars_of("--proxy=");
    let platform = chars_of("--platform=");
    if starts_with(cs.as_slice(), proxy.as_slice()) {
        assert(cs@.subrange(8, cs@.len() as int) =~= cs@.skip(8));
        Some(("KUGOU_API_PROXY".to_owned(), string_range(cs.as_slice(), 8, cs.len())))
    } else if starts_with(cs.as_slice(), platform.as_slice()) {
        assert(cs@.subrange(11, cs@.len() as int) =~= cs@.skip(11));
        Some(("platform".to_owned(), string_range(cs.as_slice(), 11, cs.len())))
    } else {
        None
    }
}

/// The proxy to use: the configured one, trimmed, when that is not empty.
pub open spec fn proxy_for(configured: Option<Seq<char>>) -> Option<Seq<char>> {
    match configured {
        Some(p) => if trim(p).len() > 0 {
            Some(trim(p))
        } else {
            None
        },
        None => None,
    }
}

/// The proxy to use (see [`proxy_for`]).
pub fn proxy_setting(configured: Option<&str>) -> (r: Option<String>)
    ensures
        match r {
            Some(p) => proxy_for(
                match configured {
                    Some(c) => Some(c@),
                    None => None,
                },
            ) == Some(p@),
            None => proxy_for(
                match configured {
                    Some(c) => Some(c@),
                    None => None,
                },
            ) is None,
        },
{
    match configured {
        Some(c) => {
            let cs = chars_of(c);
            let t = trim_chars(cs.as_slice());
            if t.len() > 0 {
                Some(string_of(t.as_slice()))
            } else {
                None
            }
        },
        None => None,
    }
}

/// The host to listen on: the configured one unless empty, else every
/// address.
pub open spec fn listen_host(configured: Seq<char>) -> Seq<char> {
    if configured.len() == 0 {
        "0.0.0.0"@
    } else {
        configured
    }
}

/// The host to listen on (see [`listen_host`]).
pub fn host_setting(configured: &str) -> (r: String)
    ensures
        r@ == listen_host(configured@),
{
    if configured.is_empty() {
        "0.0.0.0".to_owned()
    } else {
        configured.to_owned()
    }
}

/// The host shown in the start-up message: `localhost` for every address.
pub open spec fn shown_host(host: Seq<char>) -> Seq<char> {
    if host == "0.0.0.0"@ {
        "localhost"@
    } else {
        host
    }
}

/// The host shown in the start-up message (see [`shown_host`]).
pub fn display_host(host: &str) -> (r: String)
    ensures
        r@ == shown_host(host@),
{
    if crate::text::str_eq(host, "0.0.0.0") {
        "localhost".to_owned()
    } else {
        host.to_owned()
    }
}

/// The port text: the configured one unless blank, else 3000.
pub open spec fn port_text(configured: Option<Seq<char>>) -> Seq<char> {
    match configured {
        Some(p) => if trim(p).len() > 0 {
            p
        } else {
            "3000"@
        },
        None => "3000"@,
    }
}

/// The port text (see [`port_text`]).
pub fn port_setting(configured: Option<&str>) -> (r: String)
    ensures
        r@ == port_text(
            match configured {
                Some(c) => Some(c@),
                None => None,
            },
        ),
{
    match configured {
        Some(p) => {
            let cs = chars_of(p);
            let t = trim_chars(cs.as_slice());
            if t.len() > 0 {
                p.to_owned()
            } else {
                "3000".to_owned()
            }
        },
        None => "3000".to_owned(),
    }
}

/// The port `str::parse::<u16>` reads from the text, or its error's text.
pub uninterp spec fn parsed_port(text: Seq<char>) -> Result<u16, Seq<char>>;

/// The port a text names, as std documents `u16`'s parse: an optional `+`
/// followed by decimal digits only, with a value that fits in a `u16`.
pub open spec fn port_value(text: Seq<char>) -> Option<int> {
    if matches_grammar(Grammar::Integer, text) && text[0] != '-' && literal_value(text) <= 65535 {
        Some(literal_value(text))
    } else {
        None
    }
}

/// `text.parse::<u16>()`.
///
/// Trusted: the result is named (`parsed_port`); which texts parse, and to
/// what, is stated as std's documentation gives it (`port_value`); the error
/// texts are left to the name.
#[verifier::external_body]
pub fn parse_port(text: &str) -> (r: Result<u16, String>)
    ensures
        match r {
            Ok(p) => parsed_port(text@) == Ok::<u16, Seq<char>>(p) && port_value(text@) == Some(
                p as int,
            ),
            Err(e) => parsed_port(text@) == Err::<u16, Seq<char>>(e@) && port_value(text@) is None,
        },
{
    text.parse::<u16>().map_err(|e| e.to_string())
}

/// The health route: the configured path, else `/__hydrogen/health`.
pub fn health_path(configured: Option<String>) -> (r: String)
    ensures
        r@ == match configured {
            Some(p) => p@,
            None => "/__hydrogen/health"@,
        },
{
    match configured {
        Some(p) => p,
        None => "/__hydrogen/health".to_owned(),
    }
}

// ---------------------------------------------------------------------------
// The modules to serve.
// ---------------------------------------------------------------------------

/// The names of the entries.
pub open spec fn keys_of(es: Seq<(Seq<char>, JsonView)>) -> Seq<Seq<char>> {
    es.map_values(|e: (Seq<char>, JsonView)| e.0)
}

pub proof fn lemma_insert_keys(es: Seq<(Seq<char>, JsonView)>, k: Seq<char>, v: JsonView)
    ensures
        keys_of(insert_entry(es, k, v)).to_set() == keys_of(es).to_set().insert(k),
    decreases es.len(),
{
    if es.len() == 0 {
        assert(keys_of(insert_entry(es, k, v)) =~= seq![k]);
        assert(seq![k].to_set() =~= Set::<Seq<char>>::empty().insert(k)) by {
            assert(seq![k].contains(k)) by {
                assert(seq![k][0] == k);
            }
        }
        assert(keys_of(es).to_set() =~= Set::<Seq<char>>::empty());
    } else if es[0].0 == k {
        let r = es.update(0, (k, v));
        assert(keys_of(r) =~= keys_of(es));
        assert(keys_of(es).to_set().contains(k)) by {
            assert(keys_of(es)[0] == k);
        }
        assert(keys_of(es).to_set().insert(k) =~= keys_of(es).to_set());
    } else if seq_lt(k, es[0].0) {
        let r = seq![(k, v)] + es;
        assert(keys_of(r) =~= seq![k] + keys_of(es));
        assert forall|x: Seq<char>| keys_of(r).to_set().contains(x) == keys_of(es).to_set().insert(k).contains(x) by {
            if keys_of(es).contains(x) {
                let i = choose|i: int| 0 <= i < keys_of(es).len() && keys_of(es)[i] == x;
                assert(keys_of(r)[i + 1] == x);
            }
            if keys_of(r).contains(x) {
                let i = choose|i: int| 0 <= i < keys_of(r).len() && keys_of(r)[i] == x;
                if i > 0 {
                    assert(keys_of(es)[i - 1] == x);
                }
            }
            assert(keys_of(r)[0] == k);
        }
        assert(keys_of(r).to_set() =~= keys_of(es).to_set().insert(k));
    } else {
        let rest = insert_entry(es.drop_first(), k, v);
        lemma_insert_keys(es.drop_first(), k, v);
        let r = seq![es[0]] + rest;
        assert(keys_of(r) =~= seq![es[0].0] + keys_of(rest));
        assert(keys_of(es) =~= seq![es[0].0] + keys_of(es.drop_first()));
        assert forall|x: Seq<char>| keys_of(r).to_set().contains(x) == keys_of(es).to_set().insert(k).contains(x) by {
            if keys_of(r).contains(x) {
                let i = choose|i: int| 0 <= i < keys_of(r).len() && keys_of(r)[i] == x;
                if i > 0 {
                    assert(keys_of(rest)[i - 1] == x);
                    assert(keys_of(rest).to_set().contains(x));
                    if x != k {
                        assert(keys_of(es.drop_first()).to_set().contains(x));
                        let j = choose|j: int| 0 <= j < keys_of(es.drop_first()).len() && keys_of(es.drop_first())[j] == x;
                        assert(keys_of(es)[j + 1] == x);
                    }
                } else {
                    assert(keys_of(es)[0] == x);
                }
            }
            if keys_of(es).to_set().insert(k).contains(x) {
                if x == k {
                    assert(keys_of(rest).to_set().contains(k));
                    let j = choose|j: int| 0 <= j < keys_of(rest).len() && keys_of(rest)[j] == k;
                    assert(keys_of(r)[j + 1] == k);
                } else {
                    let i = choose|i: int| 0 <= i < keys_of(es).len() && keys_of(es)[i] == x;
                    if i == 0 {
                        assert(keys_of(r)[0] == x);
                    } else {
                        assert(keys_of(es.drop_first())[i - 1] == x);
                        assert(keys_of(es.drop_first()).to_set().contains(x));
                        assert(keys_of(rest).to_set().contains(x));
                        let j = choose|j: int| 0 <= j < keys_of(rest).len() && keys_of(rest)[j] == x;
                        assert(keys_of(r)[j + 1] == x);
                    }
                }
            }
        }
        assert(keys_of(r).to_set() =~= keys_of(es).to_set().insert(k));
    }
}

/// The names in order, each once: strictly increasing.
pub open spec fn strictly_sorted(s: Seq<Seq<char>>) -> bool {
    forall|i: int, j: int| 0 <= i < j < s.len() ==> seq_lt(#[trigger] s[i], #[trigger] s[j])
}

fn add_names(set: &mut JsonObject, names: &Vec<String>)
    ensures
        keys_of(final(set)@).to_set() == keys_of(old(set)@).to_set() + names@.map_values(
            |s: String| s@,
        ).to_set(),
{
    let ghost start = keys_of(set@).to_set();
    let ghost all = names@.map_values(|s: String| s@);
    let mut i: usize = 0;
    while i < names.len()
        invariant
            start == keys_of(old(set)@).to_set(),
            all == names@.map_values(|s: String| s@),
            i <= names@.len(),
            keys_of(set@).to_set() == start + all.take(i as int).to_set(),
        decreases names@.len() - i,
    {
        let ghost before = set@;
        set.insert(names[i].clone(), JsonValue::Null);
        proof {
            lemma_insert_keys(before, names@[i as int]@, JsonView::Null);
            assert(all.take(i + 1) =~= all.take(i as int).push(all[i as int]));
            all.take(i as int).lemma_push_to_set_commute(all[i as int]);
            assert(keys_of(set@).to_set() =~= start + all.take(i + 1).to_set());
        }
        i = i + 1;
    }
    assert(all.take(i as int) =~= all);
}

/// The routes to serve: the script modules and the native ones, in order,
/// each once.
pub fn all_modules(scripted: &Vec<String>, native: &Vec<String>) -> (r: Vec<String>)
    ensures
        strictly_sorted(r@.map_values(|s: String| s@)),
        r@.map_values(|s: String| s@).to_set() == scripted@.map_values(|s: String| s@).to_set()
            + native@.map_values(|s: String| s@).to_set(),
{
    let mut set = JsonObject::new();
    assert(keys_of(set@).to_set() =~= Set::<Seq<char>>::empty());
    add_names(&mut set, scripted);
    add_names(&mut set, native);
    let n = set.len();
    let mut out: Vec<String> = Vec::new();
    let mut i: usize = 0;
    while i < n
        invariant
            n == set@.len(),
            i <= n,
            out@.map_values(|s: String| s@) == keys_of(set@).take(i as int),
        decreases n - i,
    {
        let (k, _) = set.entry_at(i);
        let name = k.clone();
        let ghost before = out@.map_values(|s: String| s@);
        out.push(name);
        proof {
            assert(keys_of(set@)[i as int] == set@[i as int].0);
            assert(out@.map_values(|s: String| s@) =~= before.push(name@));
            assert(keys_of(set@).take(i + 1) =~= keys_of(set@).take(i as int).push(keys_of(set@)[i as int]));
        }
        i = i + 1;
    }
    proof {
        assert(keys_of(set@).take(n as int) =~= keys_of(set@));
        assert(out@.map_values(|s: String| s@).to_set() =~= keys_of(set@).to_set());
        assert(Set::<Seq<char>>::empty() + scripted@.map_values(|s: String| s@).to_set() =~= scripted@.map_values(|s: String| s@).to_set());
    }
    out
}

} // verus!
