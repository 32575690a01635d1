//! Where an account keeps its local state, and the table of provisional
//! identities: state created under a random token before the account's
//! identifier was known.

use rand::distributions::Alphanumeric;
use rand::Rng;
use std::collections::BTreeMap;
use std::collections::HashMap;
use vstd::prelude::*;

verus! {

/// Length of the random token that names provisional state.
pub const TOKEN_LEN: usize = 16;

/// `b` joined below the directory `a`, with one separator between them.
pub open spec fn joined(a: Seq<char>, b: Seq<char>) -> Seq<char> {
    if a.len() == 0 || a.last() == '/' {
        a + b
    } else {
        a + seq!['/'] + b
    }
}

/// The directory, below the base state directory, that holds every account.
pub open spec fn state_parent_of(base: Seq<char>) -> Seq<char> {
    joined(joined(base, seq!['A', 'r', 'c', 't', 'i', 'c']), seq!['m', 'o', 'n', 's', 't', 'e', 'r'])
}

/// The directory that holds the state stored under `name`.
pub open spec fn state_dir_of(base: Seq<char>, name: Seq<char>) -> Seq<char> {
    joined(state_parent_of(base), name)
}

/// The file that holds the unresolved-identity table.
pub open spec fn unresolved_file_of(base: Seq<char>) -> Seq<char> {
    joined(
        state_parent_of(base),
        seq!['u', 'n', 'r', 'e', 's', 'o', 'l', 'v', 'e', 'd', '.', 'j', 's', 'o', 'n'],
    )
}

pub open spec fn is_ascii_alphanumeric(c: char) -> bool {
    ('a' <= c && c <= 'z') || ('A' <= c && c <= 'Z') || ('0' <= c && c <= '9')
}

/// The string-to-string map that a JSON text denotes, if it denotes one.
pub uninterp spec fn json_string_map(text: Seq<char>) -> Option<Map<Seq<char>, Seq<char>>>;

/// The JSON text of a string-to-string map, keys in ascending order.
pub uninterp spec fn string_map_json(m: Map<Seq<char>, Seq<char>>) -> Seq<char>;

/// Relies on rand's `Alphanumeric` distribution: each sample is one of the
/// ASCII letters and digits.
#[verifier::external_body]
fn random_alphanumeric(len: usize) -> (r: String)
    ensures
        r@.len() == len,
        forall|i: int| 0 <= i < len ==> is_ascii_alphanumeric(#[trigger] r@[i]),
{
    rand::thread_rng().sample_iter(&Alphanumeric).take(len).map(char::from).collect()
}

/// Relies on serde_json::from_str into a `HashMap<String, String>`: the map
/// that the text denotes, each key once.
#[verifier::external_body]
fn parse_string_map(text: &str) -> (r: Option<Vec<(String, String)>>)
    ensures
        r is Some == json_string_map(text@) is Some,
        r matches Some(v) ==> distinct_keys(v@) && map_of_entries(v@) == json_string_map(text@).unwrap(),
{
    serde_json::from_str::<HashMap<String, String>>(text).ok().map(|m| m.into_iter().collect())
}

/// Relies on serde_json::to_string of a `BTreeMap<String, String>`, which
/// cannot fail for string keys, and whose text serde_json reads back as the
/// same map.
#[verifier::external_body]
fn print_string_map(entries: &Vec<(String, String)>) -> (r: String)
    requires
        distinct_keys(entries@),
    ensures
        r@ == string_map_json(map_of_entries(entries@)),
        json_string_map(r@) == Some(map_of_entries(entries@)),
{
    serde_json::to_string(&entries.iter().cloned().collect::<BTreeMap<String, String>>()).unwrap_or_default()
}

/// No key occurs twice.
pub open spec fn distinct_keys(e: Seq<(String, String)>) -> bool {
    forall|i: int, j: int|
        0 <= i < e.len() && 0 <= j < e.len() && i != j ==> #[trigger] e[i].0@ != #[trigger] e[j].0@
}

/// The map from each key to its value.
pub open spec fn map_of_entries(e: Seq<(String, String)>) -> Map<Seq<char>, Seq<char>> {
    Map::new(
        |k: Seq<char>| exists|i: int| 0 <= i < e.len() && e[i].0@ == k,
        |k: Seq<char>| e[choose|i: int| 0 <= i < e.len() && e[i].0@ == k].1@,
    )
}

proof fn lemma_entry_in_map(e: Seq<(String, String)>, i: int)
    requires
        distinct_keys(e),
        0 <= i < e.len(),
    ensures
        map_of_entries(e).contains_key(e[i].0@),
        map_of_entries(e)[e[i].0@] == e[i].1@,
{
    let k = e[i].0@;
    assert(map_of_entries(e).dom().contains(k));
    let j = choose|j: int| 0 <= j < e.len() && e[j].0@ == k;
    assert(j == i);
}

proof fn lemma_map_after_remove(e: Seq<(String, String)>, i: int)
    requires
        distinct_keys(e),
        0 <= i < e.len(),
    ensures
        distinct_keys(e.remove(i)),
        map_of_entries(e.remove(i)) == map_of_entries(e).remove(e[i].0@),
{
    let r = e.remove(i);
    let m = map_of_entries(e);
    let k0 = e[i].0@;
    assert forall|a: int, b: int|
        0 <= a < r.len() && 0 <= b < r.len() && a != b implies #[trigger] r[a].0@ != #[trigger] r[b].0@ by {
        let a2 = if a < i { a } else { a + 1 };
        let b2 = if b < i { b } else { b + 1 };
        assert(r[a] == e[a2] && r[b] == e[b2]);
    }
    assert forall|k: Seq<char>| #[trigger] map_of_entries(r).contains_key(k) == m.remove(k0).contains_key(k) by {
        if map_of_entries(r).contains_key(k) {
            let a = choose|a: int| 0 <= a < r.len() && r[a].0@ == k;
            let a2 = if a < i { a } else { a + 1 };
            assert(r[a] == e[a2]);
            assert(m.contains_key(k));
        }
        if m.remove(k0).contains_key(k) {
            let a2 = choose|a: int| 0 <= a < e.len() && e[a].0@ == k;
            assert(a2 != i);
            let a = if a2 < i { a2 } else { a2 - 1 };
            assert(r[a] == e[a2]);
            assert(map_of_entries(r).contains_key(k));
        }
    }
    assert forall|k: Seq<char>| #[trigger] map_of_entries(r).contains_key(k) implies map_of_entries(r)[k]
        == m.remove(k0)[k] by {
        let a = choose|a: int| 0 <= a < r.len() && r[a].0@ == k;
        let a2 = if a < i { a } else { a + 1 };
        assert(r[a] == e[a2]);
        lemma_entry_in_map(r, a);
        lemma_entry_in_map(e, a2);
    }
    assert(map_of_entries(r) =~= m.remove(k0));
}

proof fn lemma_map_after_push(e: Seq<(String, String)>, x: (String, String))
    requires
        distinct_keys(e),
        !map_of_entries(e).contains_key(x.0@),
    ensures
        distinct_keys(e.push(x)),
        map_of_entries(e.push(x)) == map_of_entries(e).insert(x.0@, x.1@),
{
    let p = e.push(x);
    let m = map_of_entries(e);
    assert forall|a: int, b: int|
        0 <= a < p.len() && 0 <= b < p.len() && a != b implies #[trigger] p[a].0@ != #[trigger] p[b].0@ by {
        if a < e.len() && b < e.len() {
            assert(p[a] == e[a] && p[b] == e[b]);
        } else if a < e.len() {
            assert(p[a] == e[a]);
            assert(m.contains_key(e[a].0@));
        } else if b < e.len() {
            assert(p[b] == e[b]);
            assert(m.contains_key(e[b].0@));
        }
    }
    assert forall|k: Seq<char>| #[trigger] map_of_entries(p).contains_key(k) == m.insert(x.0@, x.1@).contains_key(k) by {
        if map_of_entries(p).contains_key(k) {
            let a = choose|a: int| 0 <= a < p.len() && p[a].0@ == k;
            if a < e.len() {
                assert(p[a] == e[a]);
                assert(m.contains_key(k));
            }
        }
        if m.contains_key(k) {
            let a = choose|a: int| 0 <= a < e.len() && e[a].0@ == k;
            assert(p[a] == e[a]);
        }
        if k == x.0@ {
            assert(p[e.len() as int] == x);
        }
    }
    assert forall|k: Seq<char>| #[trigger] map_of_entries(p).contains_key(k) implies map_of_entries(p)[k]
        == m.insert(x.0@, x.1@)[k] by {
        let a = choose|a: int| 0 <= a < p.len() && p[a].0@ == k;
        lemma_entry_in_map(p, a);
        if a < e.len() {
            assert(p[a] == e[a]);
            lemma_entry_in_map(e, a);
        }
    }
    assert(map_of_entries(p) =~= m.insert(x.0@, x.1@));
}

/// Why a table could not be used.
#[derive(PartialEq, Eq, Structural, Clone, Copy, Debug)]
pub enum TableError {
    /// The table's file does not hold a JSON object of strings.
    Malformed,
}

/// The unresolved-identity table: for each final account identifier, the
/// token under which its state was provisionally stored.
pub struct UnresolvedTable {
    entries: Vec<(String, String)>,
}

impl View for UnresolvedTable {
    type V = Map<Seq<char>, Seq<char>>;

    closed spec fn view(&self) -> Map<Seq<char>, Seq<char>> {
        map_of_entries(self.entries@)
    }
}

impl UnresolvedTable {
    /// Each identifier occurs once.
    pub closed spec fn wf(&self) -> bool {
        distinct_keys(self.entries@)
    }

    pub fn new() -> (r: Self)
        ensures
            r.wf(),
            r@ == Map::<Seq<char>, Seq<char>>::empty(),
    {
        let r = UnresolvedTable { entries: Vec::new() };
        assert(r@ =~= Map::<Seq<char>, Seq<char>>::empty());
        r
    }

    /// The table that a file's text holds; `None` where it holds none.
    pub fn from_json(text: &str) -> (r: Option<Self>)
        ensures
            r is Some == json_string_map(text@) is Some,
            r matches Some(t) ==> t.wf() && t@ == json_string_map(text@).unwrap(),
    {
        match parse_string_map(text) {
            Some(entries) => Some(UnresolvedTable { entries }),
            None => None,
        }
    }

    /// The text to store the table as; it reads back as the same table.
    pub fn to_json(&self) -> (r: String)
        requires
            self.wf(),
        ensures
            r@ == string_map_json(self@),
            json_string_map(r@) == Some(self@),
    {
        print_string_map(&self.entries)
    }

    fn position(&self, matrix_id: &String) -> (r: Option<usize>)
        requires
            self.wf(),
        ensures
            r is None ==> !self@.contains_key(matrix_id@),
            r matches Some(i) ==> i < self.entries@.len() && self.entries@[i as int].0@ == matrix_id@,
    {
        let mut i: usize = 0;
        while i < self.entries.len()
            invariant
                i <= self.entries@.len(),
                forall|j: int| 0 <= j < i ==> self.entries@[j].0@ != matrix_id@,
            decreases self.entries@.len() - i,
        {
            if self.entries[i].0 == *matrix_id {
                return Some(i);
            }
            i = i + 1;
        }
        None
    }

    /// The token recorded for `matrix_id`, if any.
    pub fn get(&self, matrix_id: &String) -> (r: Option<String>)
        requires
            self.wf(),
        ensures
            r is Some == self@.contains_key(matrix_id@),
            r matches Some(t) ==> t@ == self@[matrix_id@],
    {
        match self.position(matrix_id) {
            Some(i) => {
                proof {
                    lemma_entry_in_map(self.entries@, i as int);
                }
                Some(self.entries[i].1.clone())
            },
            None => None,
        }
    }

    /// Deletes the entry of `matrix_id`; a missing entry leaves the table as it was.
    pub fn remove(&mut self, matrix_id: &String)
        requires
            old(self).wf(),
        ensures
            final(self).wf(),
            final(self)@ == old(self)@.remove(matrix_id@),
    {
        match self.position(matrix_id) {
            Some(i) => {
                proof {
                    lemma_map_after_remove(self.entries@, i as int);
                }
                self.entries.remove(i);
            },
            None => {
                assert(self@ =~= self@.remove(matrix_id@));
            },
        }
    }

    /// Records `token` for `matrix_id`, replacing an earlier entry of it.
    pub fn insert(&mut self, matrix_id: String, token: String)
        requires
            old(self).wf(),
        ensures
            final(self).wf(),
            final(self)@ == old(self)@.insert(matrix_id@, token@),
    {
        self.remove(&matrix_id);
        let ghost before = self.entries@;
        proof {
            lemma_map_after_push(before, (matrix_id, token));
        }
        self.entries.push((matrix_id, token));
        assert(old(self)@.remove(matrix_id@).insert(matrix_id@, token@) =~= old(self)@.insert(
            matrix_id@,
            token@,
        ));
    }
}

/// Passphrase of the local store; the store is not encrypted.
pub fn sqlite_passphrase<'a>() -> (r: Option<&'a str>)
    ensures
        r is None,
{
    None
}

/// `b` joined below the directory `a`.
pub fn join(a: &str, b: &str) -> (r: String)
    ensures
        r@ == joined(a@, b@),
{
    let n = a.unicode_len();
    let start = String::from_str(a);
    if n == 0 || a.get_char(n - 1) == '/' {
        start.concat(b)
    } else {
        proof {
            reveal_strlit("/");
        }
        start.concat("/").concat(b)
    }
}

/// The directory that holds every account's state, below `base`.
pub fn state_parent(base: &str) -> (r: String)
    ensures
        r@ == state_parent_of(base@),
{
    proof {
        reveal_strlit("Arctic");
        reveal_strlit("monster");
    }
    let app = join(base, "Arctic");
    join(app.as_str(), "monster")
}

/// The directory that holds the state stored under `name`: an account
/// identifier, or a provisional token.
pub fn state_dir(base: &str, name: &str) -> (r: String)
    ensures
        r@ == state_dir_of(base@, name@),
{
    let parent = state_parent(base);
    join(parent.as_str(), name)
}

/// The file that holds the unresolved-identity table.
pub fn unresolved_file(base: &str) -> (r: String)
    ensures
        r@ == unresolved_file_of(base@),
{
    proof {
        reveal_strlit("unresolved.json");
    }
    let parent = state_parent(base);
    join(parent.as_str(), "unresolved.json")
}

/// A fresh random token of ASCII letters and digits.
pub fn token() -> (r: String)
    ensures
        r@.len() == TOKEN_LEN,
        forall|i: int| 0 <= i < TOKEN_LEN ==> is_ascii_alphanumeric(#[trigger] r@[i]),
{
    random_alphanumeric(TOKEN_LEN)
}

/// The table that the file's text holds, where there is a file.
pub open spec fn stored_table(file: Option<Seq<char>>) -> Option<Map<Seq<char>, Seq<char>>> {
    match file {
        Some(text) => json_string_map(text),
        None => Some(Map::empty()),
    }
}

/// The token recorded for `matrix_id` in the table file, if there is one.
/// `file` is the file's text, `None` where there is no file.
pub fn needs_resolving(file: Option<&str>, matrix_id: &String) -> (r: Result<Option<String>, TableError>)
    ensures
        stored_table(opt_view(file)) is None <==> r is Err,
        r matches Ok(found) ==> found is Some == stored_table(opt_view(file)).unwrap().contains_key(matrix_id@),
        r matches Ok(Some(t)) ==> t@ == stored_table(opt_view(file)).unwrap()[matrix_id@],
{
    match file {
        None => Ok(None),
        Some(text) => match UnresolvedTable::from_json(text) {
            Some(table) => Ok(table.get(matrix_id)),
            None => Err(TableError::Malformed),
        },
    }
}

pub open spec fn opt_view(file: Option<&str>) -> Option<Seq<char>> {
    match file {
        Some(t) => Some(t@),
        None => None,
    }
}

/// Deletes the entry of `matrix_id` from the table file: the text to write,
/// or `None` where there is nothing to write because the file has no such
/// entry or there is no file. A file that holds no table is an error.
pub fn remove_from_unresolved(file: Option<&str>, matrix_id: &String) -> (r: Result<
    Option<String>,
    TableError,
>)
    ensures
        stored_table(opt_view(file)) is None <==> r is Err,
        r matches Ok(out) ==> {
            let m = stored_table(opt_view(file)).unwrap();
            &&& out is Some == m.contains_key(matrix_id@)
            &&& out matches Some(text) ==> text@ == string_map_json(m.remove(matrix_id@))
                && json_string_map(text@) == Some(m.remove(matrix_id@))
        },
{
    let text = match file {
        None => {
            return Ok(None);
        },
        Some(text) => text,
    };
    match UnresolvedTable::from_json(text) {
        Some(mut table) => {
            if table.get(matrix_id).is_none() {
                return Ok(None);
            }
            table.remove(matrix_id);
            Ok(Some(table.to_json()))
        },
        None => Err(TableError::Malformed),
    }
}

/// The table a new entry is added to: the stored one, or an empty one
/// where there is no file or it holds no table.
pub open spec fn table_to_extend(file: Option<Seq<char>>) -> Map<Seq<char>, Seq<char>> {
    match stored_table(file) {
        Some(m) => m,
        None => Map::empty(),
    }
}

/// The table file's new text once `token` is recorded for `matrix_id`.
pub fn add_to_unresolved(file: Option<&str>, matrix_id: String, token: String) -> (r: String)
    ensures
        r@ == string_map_json(table_to_extend(opt_view(file)).insert(matrix_id@, token@)),
        json_string_map(r@) == Some(table_to_extend(opt_view(file)).insert(matrix_id@, token@)),
{
    let mut table = match file {
        Some(text) => match UnresolvedTable::from_json(text) {
            Some(t) => t,
            None => UnresolvedTable::new(),
        },
        None => UnresolvedTable::new(),
    };
    table.insert(matrix_id, token);
    table.to_json()
}

/// What restoring an account must do on disk before its store is opened.
pub struct Reconciliation {
    /// Move the provisional directory (first) to the account's own (second).
    pub rename: Option<(String, String)>,
    /// Write this text to the table file.
    pub table_text: Option<String>,
}

/// The token found for `id` in `m`, and the table left after consuming it.
pub open spec fn consumed(m: Map<Seq<char>, Seq<char>>, id: Seq<char>) -> (
    Option<Seq<char>>,
    Map<Seq<char>, Seq<char>>,
) {
    (if m.contains_key(id) { Some(m[id]) } else { None }, m.remove(id))
}

/// Consumes the unresolved entry of `matrix_id`, if there is one: its
/// provisional directory is renamed to the account's directory and the entry
/// leaves the table. Without an entry, or without a file, nothing is to be
/// done. A table file that holds no table is an error.
pub fn reconcile(base: &str, file: Option<&str>, matrix_id: &String) -> (r: Result<
    Reconciliation,
    TableError,
>)
    ensures
        stored_table(opt_view(file)) is None <==> r is Err,
        r matches Ok(plan) ==> {
            let m = stored_table(opt_view(file)).unwrap();
            &&& plan.rename is Some == m.contains_key(matrix_id@)
            &&& plan.table_text is Some == m.contains_key(matrix_id@)
            &&& plan.rename matches Some(p) ==> p.0@ == state_dir_of(base@, consumed(m, matrix_id@).0.unwrap())
                && p.1@ == state_dir_of(base@, matrix_id@)
            &&& plan.table_text matches Some(t) ==> t@ == string_map_json(consumed(m, matrix_id@).1)
                && json_string_map(t@) == Some(consumed(m, matrix_id@).1)
        },
{
    let text = match file {
        None => {
            return Ok(Reconciliation { rename: None, table_text: None });
        },
        Some(text) => text,
    };
    let mut table = match UnresolvedTable::from_json(text) {
        Some(t) => t,
        None => {
            return Err(TableError::Malformed);
        },
    };
    match table.get(matrix_id) {
        None => Ok(Reconciliation { rename: None, table_text: None }),
        Some(token) => {
            let from = state_dir(base, token.as_str());
            let to = state_dir(base, matrix_id.as_str());
            table.remove(matrix_id);
            Ok(Reconciliation { rename: Some((from, to)), table_text: Some(table.to_json()) })
        },
    }
}

/// Consuming an entry that is not there changes nothing, and consuming the
/// same entry a second time finds nothing and changes nothing.
pub proof fn lemma_consume_idempotent(m: Map<Seq<char>, Seq<char>>, id: Seq<char>)
    ensures
        !m.contains_key(id) ==> consumed(m, id) == (None::<Seq<char>>, m),
        consumed(consumed(m, id).1, id) == (None::<Seq<char>>, consumed(m, id).1),
{
    if !m.contains_key(id) {
        assert(m.remove(id) =~= m);
    }
    assert(m.remove(id).remove(id) =~= m.remove(id));
}

} // verus!
