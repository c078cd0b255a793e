//! Configuration of the harness, and the `KEY=VAL` configuration files of the
//! guest build (kernel and Buildroot).

use vstd::prelude::*;
use crate::text::{chars_of, has_prefix, lines, lines_of, push_str, split_once, split_once_spec, starts_with, string_of, trim, trim_start, trimmed};

verus! {

/// Configuration specific to Docker.
pub struct DockerConfig {
    /// Name of the Docker client binary.
    pub client: String,
    /// Name of the Docker daemon binary.
    pub daemon: String,
    /// Name of the container runtime binary.
    pub runtime: String,
    /// Path to the Docker socket.
    pub socket: String,
}

/// Level of the log file.
#[derive(Debug, Clone, Copy, PartialEq, Eq, Structural)]
pub enum LevelFilter {
    Trace,
    Debug,
    Info,
    Warn,
    Error,
}

impl Default for LevelFilter {
    fn default() -> (r: LevelFilter)
        ensures
            r == LevelFilter::Info,
    {
        LevelFilter::Info
    }
}

/// Configuration specific to the logger.
pub struct LogConfig {
    /// Path to the log file, if any.
    pub file: Option<String>,
    /// Log file verbosity.
    pub level: LevelFilter,
}

/// Configuration specific to reports.
pub struct ReportConfig {
    /// Directory the reports are written to.
    pub dir: String,
}

/// The configuration of the harness, built once at startup and passed to
/// what needs it.
pub struct Config {
    pub docker: DockerConfig,
    pub log: LogConfig,
    pub reports: ReportConfig,
}

/// The entry that a line of a configuration file sets: none for a comment
/// (`#` after leading whitespace) or a line without `=`; else the trimmed text
/// before the first `=` and the trimmed text after it.
pub open spec fn config_entry(line: Seq<char>) -> Option<(Seq<char>, Seq<char>)> {
    if has_prefix(trim_start(line), seq!['#']) {
        None
    } else {
        match split_once_spec(line, seq!['=']) {
            Some((k, v)) => Some((trim(k), trim(v))),
            None => None,
        }
    }
}

/// The settings of some lines; a later line overrides an earlier one.
pub open spec fn config_map(ls: Seq<Seq<char>>) -> Map<Seq<char>, Seq<char>>
    decreases ls.len(),
{
    if ls.len() == 0 {
        Map::empty()
    } else {
        match config_entry(ls.last()) {
            Some((k, v)) => config_map(ls.drop_last()).insert(k, v),
            None => config_map(ls.drop_last()),
        }
    }
}

/// The pairs of texts of some string pairs.
pub open spec fn pair_texts(p: Seq<(String, String)>) -> Seq<(Seq<char>, Seq<char>)> {
    p.map_values(|e: (String, String)| (e.0@, e.1@))
}

/// `entries` lists the settings of `m`, each key once.
pub open spec fn lists(entries: Seq<(Seq<char>, Seq<char>)>, m: Map<Seq<char>, Seq<char>>) -> bool {
    &&& forall|i: int, j: int| 0 <= i < j < entries.len() ==> (#[trigger] entries[i]).0 != (#[trigger] entries[j]).0
    &&& forall|i: int| 0 <= i < entries.len() ==> m.contains_key((#[trigger] entries[i]).0) && m[entries[i].0] == entries[i].1
    &&& forall|k: Seq<char>| #[trigger] m.contains_key(k) ==> exists|i: int| 0 <= i < entries.len() && (#[trigger] entries[i]).0 == k
}

fn line_entry(line: &Vec<char>) -> (r: Option<(Vec<char>, Vec<char>)>)
    ensures
        match (r, config_entry(line@)) {
            (Some((k, v)), Some((k2, v2))) => k@ == k2 && v@ == v2,
            (None, None) => true,
            _ => false,
        },
{
    let hash: Vec<char> = vec!['#'];
    proof {
        assert(hash@ =~= seq!['#']);
    }
    let lead = trim_start_exec(line);
    if starts_with(&lead, &hash) {
        return None;
    }
    let eq: Vec<char> = vec!['='];
    proof {
        assert(eq@ =~= seq!['=']);
    }
    match split_once(line, &eq) {
        Some((k, v)) => Some((trimmed(&k), trimmed(&v))),
        None => None,
    }
}

fn trim_start_exec(s: &Vec<char>) -> (r: Vec<char>)
    ensures
        r@ == trim_start(s@),
{
    let n = s.len();
    let mut i: usize = 0;
    proof {
        assert(s@.subrange(0, n as int) =~= s@);
    }
    while i < n && crate::text::space_char(s[i])
        invariant
            n == s@.len(),
            i <= n,
            trim_start(s@) == trim_start(s@.subrange(i as int, n as int)),
        decreases n - i,
    {
        proof {
            assert(s@.subrange(i as int, n as int).drop_first() =~= s@.subrange(i + 1, n as int));
        }
        i = i + 1;
    }
    let r = crate::text::slice(s, i, n);
    proof {
        assert(trim_start(r@) == r@);
    }
    r
}

proof fn lemma_lists_update(entries: Seq<(Seq<char>, Seq<char>)>, m: Map<Seq<char>, Seq<char>>, j: int, v: Seq<char>)
    requires
        lists(entries, m),
        0 <= j < entries.len(),
    ensures
        lists(entries.update(j, (entries[j].0, v)), m.insert(entries[j].0, v)),
{
    let k = entries[j].0;
    let e = entries.update(j, (k, v));
    let m2 = m.insert(k, v);
    assert forall|i: int| 0 <= i < e.len() implies m2.contains_key((#[trigger] e[i]).0) && m2[e[i].0] == e[i].1 by {
        if i != j {
            assert(entries[i].0 != entries[j].0);
        }
    }
    assert forall|key: Seq<char>| #[trigger] m2.contains_key(key) implies exists|i: int| 0 <= i < e.len() && (#[trigger] e[i]).0 == key by {
        if key != k {
            let i = choose|i: int| 0 <= i < entries.len() && (#[trigger] entries[i]).0 == key;
            assert(e[i].0 == key);
        } else {
            assert(e[j].0 == key);
        }
    }
}

proof fn lemma_lists_push(entries: Seq<(Seq<char>, Seq<char>)>, m: Map<Seq<char>, Seq<char>>, k: Seq<char>, v: Seq<char>)
    requires
        lists(entries, m),
        forall|i: int| 0 <= i < entries.len() ==> (#[trigger] entries[i]).0 != k,
    ensures
        lists(entries.push((k, v)), m.insert(k, v)),
{
    let e = entries.push((k, v));
    let m2 = m.insert(k, v);
    assert forall|i: int| 0 <= i < e.len() implies m2.contains_key((#[trigger] e[i]).0) && m2[e[i].0] == e[i].1 by {
        if i < entries.len() {
            assert(e[i] == entries[i]);
        }
    }
    assert forall|key: Seq<char>| #[trigger] m2.contains_key(key) implies exists|i: int| 0 <= i < e.len() && (#[trigger] e[i]).0 == key by {
        if key != k {
            let i = choose|i: int| 0 <= i < entries.len() && (#[trigger] entries[i]).0 == key;
            assert(e[i].0 == key);
        } else {
            assert(e[entries.len() as int].0 == key);
        }
    }
    assert forall|i: int, j: int| 0 <= i < j < e.len() implies (#[trigger] e[i]).0 != (#[trigger] e[j]).0 by {
        if j < entries.len() {
            assert(e[i] == entries[i] && e[j] == entries[j]);
        } else {
            assert(e[i] == entries[i]);
        }
    }
}

/// Sets `key` to `value` in a list of settings that holds each key once.
fn set_entry(r: &mut Vec<(String, String)>, key: String, value: String, m: Ghost<Map<Seq<char>, Seq<char>>>)
    requires
        lists(pair_texts(old(r)@), m@),
    ensures
        lists(pair_texts(final(r)@), m@.insert(key@, value@)),
{
    let ghost before = pair_texts(r@);
    let mut j: usize = 0;
    let mut found = false;
    while j < r.len() && !found
        invariant
            j <= r@.len(),
            pair_texts(r@) == before,
            found ==> j < r@.len() && before[j as int].0 == key@,
            forall|m: int| 0 <= m < j ==> before[m].0 != key@,
        decreases r@.len() - j + (if found { 0int } else { 1int }),
    {
        if r[j].0 == key {
            found = true;
        } else {
            j = j + 1;
        }
    }
    let ghost k = key@;
    let ghost v = value@;
    if found {
        r.set(j, (key, value));
        proof {
            assert(pair_texts(r@) =~= before.update(j as int, (k, v)));
            lemma_lists_update(before, m@, j as int, v);
        }
    } else {
        r.push((key, value));
        proof {
            assert(pair_texts(r@) =~= before.push((k, v)));
            lemma_lists_push(before, m@, k, v);
        }
    }
}

/// Reads a `KEY=VAL` configuration: one entry per key, with the value of its
/// last line.
pub fn parse_config(text: &str) -> (r: Vec<(String, String)>)
    ensures
        lists(pair_texts(r@), config_map(lines(text@))),
{
    let cs = chars_of(text);
    let ls = lines_of(&cs);
    let ghost all = lines(cs@);
    let mut r: Vec<(String, String)> = Vec::new();
    let mut i: usize = 0;
    while i < ls.len()
        invariant
            i <= ls@.len(),
            all == lines(text@),
            ls@.len() == all.len(),
            forall|k: int| 0 <= k < ls@.len() ==> (#[trigger] ls@[k])@ == all[k],
            lists(pair_texts(r@), config_map(all.subrange(0, i as int))),
        decreases ls@.len() - i,
    {
        proof {
            assert(all.subrange(0, i + 1).drop_last() =~= all.subrange(0, i as int));
            assert(all.subrange(0, i + 1).last() == ls@[i as int]@);
        }
        match line_entry(&ls[i]) {
            None => {},
            Some((k, v)) => {
                let key = string_of(&k);
                let value = string_of(&v);
                set_entry(&mut r, key, value, Ghost(config_map(all.subrange(0, i as int))));
            },
        }
        i = i + 1;
    }
    proof {
        assert(all.subrange(0, ls@.len() as int) =~= all);
    }
    r
}

/// The text of some settings: one `KEY=VAL` line each, in order.
pub open spec fn config_text(entries: Seq<(Seq<char>, Seq<char>)>) -> Seq<char>
    decreases entries.len(),
{
    if entries.len() == 0 {
        Seq::empty()
    } else {
        config_text(entries.drop_last()) + entries.last().0 + seq!['='] + entries.last().1 + seq!['\n']
    }
}

/// Writes settings as `KEY=VAL` lines, in order.
pub fn write_config(entries: &Vec<(String, String)>) -> (r: String)
    ensures
        r@ == config_text(pair_texts(entries@)),
{
    let mut out: Vec<char> = Vec::new();
    for i in 0..entries.len()
        invariant
            out@ == config_text(pair_texts(entries@.subrange(0, i as int))),
    {
        let k = chars_of(entries[i].0.as_str());
        let v = chars_of(entries[i].1.as_str());
        push_str(&mut out, &k);
        out.push('=');
        push_str(&mut out, &v);
        out.push('\n');
        proof {
            let p = pair_texts(entries@.subrange(0, i + 1));
            assert(p.drop_last() =~= pair_texts(entries@.subrange(0, i as int)));
            assert(out@ =~= config_text(p));
        }
    }
    proof {
        assert(entries@.subrange(0, entries@.len() as int) =~= entries@);
    }
    string_of(&out)
}

} // verus!
