//! Completion of the word under the cursor from SQL keywords, meta commands
//! and the names of the server's tables.

use crate::text::{
    has_prefix, scan_word_back, starts_with, str_eq, to_chars, uppercase_of, word_start,
};
use vstd::prelude::*;
use vstd::string::*;

verus! {

/// The candidates for completion: two fixed lists, and the names of the
/// tables as they were last fetched.
#[derive(Clone, Debug, PartialEq, Eq)]
pub struct SQLCompleter {
    pub keywords: Vec<String>,
    pub meta_commands: Vec<String>,
    pub tables: Vec<String>,
}

/// A `SQLCompleter` as the contracts speak of it, with texts as sequences of
/// characters.
pub struct CompleterView {
    pub keywords: Seq<Seq<char>>,
    pub meta_commands: Seq<Seq<char>>,
    pub tables: Seq<Seq<char>>,
}

impl DeepView for SQLCompleter {
    type V = CompleterView;

    open spec fn deep_view(&self) -> CompleterView {
        CompleterView {
            keywords: self.keywords.deep_view(),
            meta_commands: self.meta_commands.deep_view(),
            tables: self.tables.deep_view(),
        }
    }
}

/// The SQL keywords that are offered, in the order in which they are offered.
pub open spec fn keyword_list() -> Seq<Seq<char>> {
    seq![
        "SELECT"@,
        "FROM"@,
        "WHERE"@,
        "INSERT"@,
        "UPDATE"@,
        "DELETE"@,
        "LIMIT"@,
        "JOIN"@,
        "ON"@,
    ]
}

/// The meta commands that are offered, in the order in which they are offered.
pub open spec fn meta_command_list() -> Seq<Seq<char>> {
    seq!["\\help"@, "\\q"@, "\\format"@, "\\dt"@, "\\dwal"@, "\\dstorage"@, "\\refresh"@]
}

/// Those of the first `n` entries of `list` that begin with `prefix`, in
/// their order.
pub open spec fn matching(list: Seq<Seq<char>>, prefix: Seq<char>, n: int) -> Seq<Seq<char>>
    decreases n,
{
    if n <= 0 {
        Seq::empty()
    } else if has_prefix(list[n - 1], prefix) {
        matching(list, prefix, n - 1).push(list[n - 1])
    } else {
        matching(list, prefix, n - 1)
    }
}

/// The names among the first `n` of `fetched` that are not null, each once,
/// in the order in which they first occur.
pub open spec fn distinct_names(fetched: Seq<Option<Seq<char>>>, n: int) -> Seq<Seq<char>>
    decreases n,
{
    if n <= 0 {
        Seq::empty()
    } else {
        let before = distinct_names(fetched, n - 1);
        match fetched[n - 1] {
            Some(name) => if before.contains(name) {
                before
            } else {
                before.push(name)
            },
            None => before,
        }
    }
}

/// The word that completion works on: what stands between the last space
/// before the cursor and the cursor.
pub open spec fn partial_word(line: Seq<char>, cursor: int) -> Seq<char> {
    line.subrange(word_start(line, cursor), cursor)
}

/// The candidates for a partial word, with its form in upper case given:
/// the keywords that begin with the word in upper case, then the meta
/// commands and the tables that begin with the word as it was typed.
pub open spec fn candidates_with(
    keywords: Seq<Seq<char>>,
    meta_commands: Seq<Seq<char>>,
    tables: Seq<Seq<char>>,
    word: Seq<char>,
    upper: Seq<char>,
) -> Seq<Seq<char>> {
    matching(keywords, upper, keywords.len() as int) + matching(
        meta_commands,
        word,
        meta_commands.len() as int,
    ) + matching(tables, word, tables.len() as int)
}

/// The candidates for a partial word: keywords are matched without regard
/// to case, meta commands and tables as they are written.
pub open spec fn candidates(
    keywords: Seq<Seq<char>>,
    meta_commands: Seq<Seq<char>>,
    tables: Seq<Seq<char>>,
    word: Seq<char>,
) -> Seq<Seq<char>> {
    candidates_with(keywords, meta_commands, tables, word, uppercase_of(word))
}

/// No name occurs twice in `names`.
pub open spec fn no_duplicates(names: Seq<Seq<char>>) -> bool {
    forall|i: int, j: int| 0 <= i < j < names.len() ==> names[i] != names[j]
}

/// The names that `distinct_names` keeps are those that were fetched, and
/// none of them occurs twice.
pub proof fn lemma_distinct_names(fetched: Seq<Option<Seq<char>>>, n: int)
    requires
        0 <= n <= fetched.len(),
    ensures
        no_duplicates(distinct_names(fetched, n)),
        forall|name: Seq<char>| #[trigger]
            distinct_names(fetched, n).contains(name) <==> exists|k: int|
                0 <= k < n && fetched[k] == Some(name),
    decreases n,
{
    if n > 0 {
        lemma_distinct_names(fetched, n - 1);
        let before = distinct_names(fetched, n - 1);
        let after = distinct_names(fetched, n);
        assert forall|name: Seq<char>| after.contains(name) implies exists|k: int|
            0 <= k < n && fetched[k] == Some(name) by {
            if before.contains(name) {
                let k = choose|k: int| 0 <= k < n - 1 && fetched[k] == Some(name);
                assert(0 <= k < n && fetched[k] == Some(name));
            } else {
                let at = choose|i: int| 0 <= i < after.len() && after[i] == name;
                assert(at == before.len());
                assert(fetched[n - 1] == Some(name));
            }
        }
        assert forall|name: Seq<char>|
            (exists|k: int| 0 <= k < n && fetched[k] == Some(name)) implies after.contains(
            name,
        ) by {
            let k = choose|k: int| 0 <= k < n && fetched[k] == Some(name);
            if k < n - 1 {
                assert(before.contains(name));
                let at = choose|i: int| 0 <= i < before.len() && before[i] == name;
                assert(after[at] == name);
            } else if before.contains(name) {
                let at = choose|i: int| 0 <= i < before.len() && before[i] == name;
                assert(after[at] == name);
            } else {
                assert(after[before.len() as int] == name);
            }
        }
    }
}

/// An entry that keeps its prefix is a candidate, and every candidate is an
/// entry with the prefix.
pub proof fn lemma_matching_members(list: Seq<Seq<char>>, prefix: Seq<char>, n: int)
    requires
        0 <= n <= list.len(),
    ensures
        forall|s: Seq<char>| #[trigger]
            matching(list, prefix, n).contains(s) <==> has_prefix(s, prefix) && exists|k: int|
                0 <= k < n && list[k] == s,
    decreases n,
{
    if n > 0 {
        lemma_matching_members(list, prefix, n - 1);
        let before = matching(list, prefix, n - 1);
        let after = matching(list, prefix, n);
        assert forall|s: Seq<char>| after.contains(s) implies has_prefix(s, prefix) && exists|
            k: int,
        |
            0 <= k < n && list[k] == s by {
            if before.contains(s) {
                let k = choose|k: int| 0 <= k < n - 1 && list[k] == s;
                assert(0 <= k < n && list[k] == s);
            } else {
                let at = choose|i: int| 0 <= i < after.len() && after[i] == s;
                assert(at == before.len());
                assert(list[n - 1] == s);
            }
        }
        assert forall|s: Seq<char>|
            has_prefix(s, prefix) && (exists|k: int| 0 <= k < n && list[k] == s) implies after.contains(
            s,
        ) by {
            let k = choose|k: int| 0 <= k < n && list[k] == s;
            if k < n - 1 {
                assert(before.contains(s));
                let at = choose|i: int| 0 <= i < before.len() && before[i] == s;
                assert(after[at] == s);
            } else {
                assert(after[before.len() as int] == s);
            }
        }
    }
}

/// A text is a candidate exactly if it is a keyword that begins with the
/// word in upper case, or a meta command or a table that begins with the
/// word as it was typed.
pub proof fn lemma_candidates_members(
    keywords: Seq<Seq<char>>,
    meta_commands: Seq<Seq<char>>,
    tables: Seq<Seq<char>>,
    word: Seq<char>,
    s: Seq<char>,
)
    ensures
        candidates(keywords, meta_commands, tables, word).contains(s) <==> (keywords.contains(s)
            && has_prefix(s, uppercase_of(word))) || (meta_commands.contains(s) && has_prefix(
            s,
            word,
        )) || (tables.contains(s) && has_prefix(s, word)),
{
    let a = matching(keywords, uppercase_of(word), keywords.len() as int);
    let b = matching(meta_commands, word, meta_commands.len() as int);
    let c = matching(tables, word, tables.len() as int);
    lemma_matching_members(keywords, uppercase_of(word), keywords.len() as int);
    lemma_matching_members(meta_commands, word, meta_commands.len() as int);
    lemma_matching_members(tables, word, tables.len() as int);
    let all = a + b + c;
    if all.contains(s) {
        let i = choose|i: int| 0 <= i < all.len() && all[i] == s;
        if i < a.len() {
            assert(a[i] == s);
            assert(a.contains(s));
        } else if i < a.len() + b.len() {
            assert(b[i - a.len()] == s);
            assert(b.contains(s));
        } else {
            assert(c[i - a.len() - b.len()] == s);
            assert(c.contains(s));
        }
    }
    if a.contains(s) {
        let i = choose|i: int| 0 <= i < a.len() && a[i] == s;
        assert(all[i] == s);
    }
    if b.contains(s) {
        let i = choose|i: int| 0 <= i < b.len() && b[i] == s;
        assert(all[a.len() + i] == s);
    }
    if c.contains(s) {
        let i = choose|i: int| 0 <= i < c.len() && c[i] == s;
        assert(all[a.len() + b.len() + i] == s);
    }
}

/// Tells whether `name` is one of `names`.
pub fn contains_name(names: &Vec<String>, name: &str) -> (r: bool)
    ensures
        r == names.deep_view().contains(name@),
{
    let mut i: usize = 0;
    while i < names.len()
        invariant
            i <= names.len(),
            forall|k: int| 0 <= k < i ==> names.deep_view()[k] != name@,
        decreases names.len() - i,
    {
        if str_eq(names[i].as_str(), name) {
            assert(names.deep_view()[i as int] == name@);
            return true;
        }
        i += 1;
    }
    false
}

/// Appends to `out` the entries of `list` that begin with `prefix`.
pub fn push_matching(out: &mut Vec<String>, list: &Vec<String>, prefix: &str)
    ensures
        final(out).deep_view() == old(out).deep_view() + matching(
            list.deep_view(),
            prefix@,
            list.len() as int,
        ),
{
    let ghost base = out.deep_view();
    assert(out.deep_view() =~= base + matching(list.deep_view(), prefix@, 0));
    let mut i: usize = 0;
    while i < list.len()
        invariant
            i <= list.len(),
            out.deep_view() == base + matching(list.deep_view(), prefix@, i as int),
        decreases list.len() - i,
    {
        let ghost before = out.deep_view();
        if starts_with(list[i].as_str(), prefix) {
            out.push(list[i].clone());
            assert(out.deep_view() =~= before.push(list@[i as int]@));
        }
        assert(out.deep_view() =~= base + matching(list.deep_view(), prefix@, i + 1));
        i += 1;
    }
}

/// A list of strings from string literals.
fn owned_list(items: &[&'static str]) -> (r: Vec<String>)
    ensures
        r.len() == items.len(),
        forall|k: int| 0 <= k < items.len() ==> r@[k]@ == items@[k]@,
{
    let mut r: Vec<String> = Vec::new();
    let mut i: usize = 0;
    while i < items.len()
        invariant
            i <= items.len(),
            r.len() == i,
            forall|k: int| 0 <= k < i ==> r@[k]@ == items@[k]@,
        decreases items.len() - i,
    {
        r.push(String::from_str(items[i]));
        i += 1;
    }
    r
}

impl SQLCompleter {
    /// A completer with the fixed keywords and meta commands, and no tables
    /// yet.
    pub fn new() -> (r: SQLCompleter)
        ensures
            r.keywords.deep_view() == keyword_list(),
            r.meta_commands.deep_view() == meta_command_list(),
            r.tables.deep_view() == Seq::<Seq<char>>::empty(),
    {
        let keywords = owned_list(
            &["SELECT", "FROM", "WHERE", "INSERT", "UPDATE", "DELETE", "LIMIT", "JOIN", "ON"],
        );
        let meta_commands = owned_list(
            &["\\help", "\\q", "\\format", "\\dt", "\\dwal", "\\dstorage", "\\refresh"],
        );
        let tables: Vec<String> = Vec::new();
        assert(keywords.deep_view() =~= keyword_list());
        assert(meta_commands.deep_view() =~= meta_command_list());
        assert(tables.deep_view() =~= Seq::<Seq<char>>::empty());
        SQLCompleter { keywords, meta_commands, tables }
    }

    /// Replaces the names of the tables by those that were fetched: the ones
    /// that are not null, each once, in the order in which they first occur.
    pub fn update_tables(&mut self, fetched: Vec<Option<String>>)
        ensures
            final(self).tables.deep_view() == distinct_names(
                fetched.deep_view(),
                fetched.len() as int,
            ),
            no_duplicates(final(self).tables.deep_view()),
            final(self).keywords == old(self).keywords,
            final(self).meta_commands == old(self).meta_commands,
    {
        let mut tables: Vec<String> = Vec::new();
        assert(tables.deep_view() =~= distinct_names(fetched.deep_view(), 0));
        let mut i: usize = 0;
        while i < fetched.len()
            invariant
                i <= fetched.len(),
                tables.deep_view() == distinct_names(fetched.deep_view(), i as int),
            decreases fetched.len() - i,
        {
            let ghost before = tables.deep_view();
            assert(fetched.deep_view()[i as int] == fetched@[i as int].deep_view());
            match &fetched[i] {
                Some(name) => {
                    if !contains_name(&tables, name.as_str()) {
                        tables.push(name.clone());
                        assert(tables.deep_view() =~= before.push(name@));
                    }
                },
                None => {},
            }
            i += 1;
        }
        proof {
            lemma_distinct_names(fetched.deep_view(), fetched.len() as int);
        }
        self.tables = tables;
    }

    /// The candidates for a partial word, with its form in upper case
    /// given: keywords first, then meta commands, then tables.
    pub fn candidates_for(&self, word: &str, upper: &str) -> (found: Vec<String>)
        ensures
            found.deep_view() == candidates_with(
                self.keywords.deep_view(),
                self.meta_commands.deep_view(),
                self.tables.deep_view(),
                word@,
                upper@,
            ),
    {
        let mut found: Vec<String> = Vec::new();
        assert(found.deep_view() =~= Seq::<Seq<char>>::empty());
        push_matching(&mut found, &self.keywords, upper);
        push_matching(&mut found, &self.meta_commands, word);
        push_matching(&mut found, &self.tables, word);
        assert(found.deep_view() =~= candidates_with(
            self.keywords.deep_view(),
            self.meta_commands.deep_view(),
            self.tables.deep_view(),
            word@,
            upper@,
        ));
        found
    }

    /// Completes the word that ends at the cursor, which stands behind the
    /// first `cursor` characters of `line`. Returns where that word begins,
    /// and its candidates: keywords first, then meta commands, then tables.
    pub fn complete(&self, line: &str, cursor: usize) -> (r: (usize, Vec<String>))
        requires
            cursor <= line@.len(),
        ensures
            r.0 == word_start(line@, cursor as int),
            r.1.deep_view() == candidates(
                self.keywords.deep_view(),
                self.meta_commands.deep_view(),
                self.tables.deep_view(),
                partial_word(line@, cursor as int),
            ),
    {
        let chars = to_chars(line);
        let start = scan_word_back(&chars, cursor);
        let word = line.substring_char(start, cursor);
        let upper = word.to_uppercase();
        let found = self.candidates_for(word, upper.as_str());
        (start, found)
    }
}

} // verus!
