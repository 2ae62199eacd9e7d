//! PostgreSQL `pg_trgm` helpers for fuzzy text search: the search limit
//! policy, the case-insensitive `LIKE` pattern, SQL identifier checks and the
//! statements that manage trigram GIN indexes.

use vstd::prelude::*;

use crate::text::{ascii_lower, chars_of, push_char, push_str};

verus! {

/// Default number of rows a search returns.
pub const DEFAULT_SEARCH_LIMIT: u64 = 20;

/// Hard cap on search result rows.
pub const MAX_SEARCH_LIMIT: u64 = 50;

/// The statement that makes sure `pg_trgm` is installed.
pub const ENABLE_EXTENSION_SQL: &'static str = "CREATE EXTENSION IF NOT EXISTS pg_trgm";

/// The limit actually used: 0 means the default, anything above the cap is capped.
pub open spec fn clamp_search_limit_spec(limit: u64) -> u64 {
    if limit == 0 {
        DEFAULT_SEARCH_LIMIT
    } else if limit < MAX_SEARCH_LIMIT {
        limit
    } else {
        MAX_SEARCH_LIMIT
    }
}

/// Clamp a `limit` argument into `[1, MAX_SEARCH_LIMIT]` (0 → the default).
pub fn clamp_search_limit(limit: u64) -> (r: u64)
    ensures
        r == clamp_search_limit_spec(limit),
        1 <= r <= MAX_SEARCH_LIMIT,
{
    if limit == 0 {
        DEFAULT_SEARCH_LIMIT
    } else if limit < MAX_SEARCH_LIMIT {
        limit
    } else {
        MAX_SEARCH_LIMIT
    }
}

/// The Unicode lower-case form of `s`, as `str::to_lowercase` gives it.
pub uninterp spec fn str_lowercase(s: Seq<char>) -> Seq<char>;

/// Every character is ASCII.
pub open spec fn all_ascii(s: Seq<char>) -> bool {
    forall|i: int| 0 <= i < s.len() ==> (#[trigger] s[i] as u32) < 128
}

/// `str::to_lowercase`. Of Unicode's mapping the contract states the ASCII
/// part: an all-ASCII string is lower-cased letter by letter.
#[verifier::external_body]
pub(crate) fn lowercase_of(s: &str) -> (r: String)
    ensures
        r@ == str_lowercase(s@),
        all_ascii(s@) ==> r@ == s@.map_values(|c: char| ascii_lower(c)),
{
    s.to_lowercase()
}

/// `s` lower-cased as `str::to_lowercase` does it: letter by letter for an
/// all-ASCII text, else Unicode's mapping.
pub open spec fn lowered(s: Seq<char>) -> Seq<char> {
    if all_ascii(s) {
        s.map_values(|c: char| ascii_lower(c))
    } else {
        str_lowercase(s)
    }
}

/// A `LIKE` wildcard or the escape character.
pub open spec fn like_special(c: char) -> bool {
    c == '%' || c == '_' || c == '\\'
}

/// `s` with each wildcard and backslash escaped by a backslash.
pub open spec fn like_escape(s: Seq<char>) -> Seq<char>
    decreases s.len(),
{
    if s.len() == 0 {
        seq![]
    } else {
        like_escape(s.drop_last()) + (if like_special(s.last()) { seq!['\\', s.last()] } else { seq![s.last()] })
    }
}

/// `%needle%` over the lower-cased needle, its wildcards escaped.
pub open spec fn like_pattern_spec(needle: Seq<char>) -> Seq<char> {
    seq!['%'] + like_escape(lowered(needle)) + seq!['%']
}

/// A case-insensitive substring `LIKE` pattern for `needle`.
pub fn like_contains_pattern(needle: &str) -> (r: String)
    ensures
        r@ == like_pattern_spec(needle@),
{
    let lower = lowercase_of(needle);
    let v = chars_of(lower.as_str());
    let mut out = String::new();
    push_char(&mut out, '%');
    let mut i: usize = 0;
    while i < v.len()
        invariant
            i <= v.len(),
            v@ == lowered(needle@),
            out@ == seq!['%'] + like_escape(v@.take(i as int)),
        decreases v.len() - i,
    {
        let c = v[i];
        if c == '%' || c == '_' || c == '\\' {
            push_char(&mut out, '\\');
        }
        push_char(&mut out, c);
        assert(v@.take(i + 1).drop_last() == v@.take(i as int));
        i = i + 1;
    }
    push_char(&mut out, '%');
    assert(v@.take(v@.len() as int) == v@);
    out
}

/// A simple SQL identifier: non-empty, ASCII letters, digits and `_` only.
pub open spec fn is_sql_ident_spec(name: Seq<char>) -> bool {
    name.len() > 0 && forall|i: int| 0 <= i < name.len() ==> {
        let c = #[trigger] name[i];
        ('a' <= c && c <= 'z') || ('A' <= c && c <= 'Z') || ('0' <= c && c <= '9') || c == '_'
    }
}

/// Whether `name` is a simple SQL identifier (`[A-Za-z0-9_]+`).
pub fn is_sql_ident(name: &str) -> (r: bool)
    ensures
        r == is_sql_ident_spec(name@),
{
    let v = chars_of(name);
    if v.len() == 0 {
        return false;
    }
    let mut i: usize = 0;
    while i < v.len()
        invariant
            i <= v.len(),
            v@ == name@,
            forall|j: int| 0 <= j < i ==> {
                let c = #[trigger] v@[j];
                ('a' <= c && c <= 'z') || ('A' <= c && c <= 'Z') || ('0' <= c && c <= '9') || c == '_'
            },
        decreases v.len() - i,
    {
        let c = v[i];
        if !(('a' <= c && c <= 'z') || ('A' <= c && c <= 'Z') || ('0' <= c && c <= '9') || c == '_') {
            assert(!is_sql_ident_spec(name@)) by {
                assert(name@[i as int] == c);
            }
            return false;
        }
        i = i + 1;
    }
    true
}

/// `CREATE INDEX IF NOT EXISTS {index} ON {table} USING gin ((LOWER({column}::text)) gin_trgm_ops)`.
pub open spec fn create_gin_index_sql_spec(index: Seq<char>, table: Seq<char>, column: Seq<char>) -> Seq<char> {
    "CREATE INDEX IF NOT EXISTS "@ + index + " ON "@ + table + " USING gin ((LOWER("@ + column
        + "::text)) gin_trgm_ops)"@
}

/// The statement that creates a case-insensitive trigram GIN index. The
/// names are spliced into the SQL, so they must be simple identifiers.
pub fn create_gin_index_sql(index: &str, table: &str, column: &str) -> (r: String)
    requires
        is_sql_ident_spec(index@),
        is_sql_ident_spec(table@),
        is_sql_ident_spec(column@),
    ensures
        r@ == create_gin_index_sql_spec(index@, table@, column@),
{
    let mut out = String::new();
    push_str(&mut out, "CREATE INDEX IF NOT EXISTS ");
    push_str(&mut out, index);
    push_str(&mut out, " ON ");
    push_str(&mut out, table);
    push_str(&mut out, " USING gin ((LOWER(");
    push_str(&mut out, column);
    push_str(&mut out, "::text)) gin_trgm_ops)");
    assert(Seq::<char>::empty() + "CREATE INDEX IF NOT EXISTS "@ == "CREATE INDEX IF NOT EXISTS "@);
    out
}

/// `DROP INDEX IF EXISTS {index}`.
pub open spec fn drop_gin_index_sql_spec(index: Seq<char>) -> Seq<char> {
    "DROP INDEX IF EXISTS "@ + index
}

/// The statement that drops a trigram GIN index.
pub fn drop_gin_index_sql(index: &str) -> (r: String)
    requires
        is_sql_ident_spec(index@),
    ensures
        r@ == drop_gin_index_sql_spec(index@),
{
    let mut out = String::new();
    push_str(&mut out, "DROP INDEX IF EXISTS ");
    push_str(&mut out, index);
    assert(Seq::<char>::empty() + "DROP INDEX IF EXISTS "@ == "DROP INDEX IF EXISTS "@);
    out
}

/// The statements that (re)create an index: on Postgres, drop it if `recreate`,
/// make sure `pg_trgm` exists, create it; elsewhere nothing.
pub open spec fn gin_index_statements_spec(
    postgres: bool,
    recreate: bool,
    index: Seq<char>,
    table: Seq<char>,
    column: Seq<char>,
) -> Seq<Seq<char>> {
    if !postgres {
        seq![]
    } else if recreate {
        seq![drop_gin_index_sql_spec(index), ENABLE_EXTENSION_SQL@, create_gin_index_sql_spec(index, table, column)]
    } else {
        seq![ENABLE_EXTENSION_SQL@, create_gin_index_sql_spec(index, table, column)]
    }
}

/// The SQL to run, in order, to create (or drop and recreate) a trigram GIN
/// index on one text column. Nothing runs on other backends.
pub fn gin_index_statements(postgres: bool, recreate: bool, index: &str, table: &str, column: &str) -> (r: Vec<String>)
    requires
        is_sql_ident_spec(index@),
        is_sql_ident_spec(table@),
        is_sql_ident_spec(column@),
    ensures
        r@.map_values(|s: String| s@) == gin_index_statements_spec(postgres, recreate, index@, table@, column@),
{
    let mut out: Vec<String> = Vec::new();
    if !postgres {
        assert(out@.map_values(|s: String| s@) =~= Seq::<Seq<char>>::empty());
        return out;
    }
    if recreate {
        out.push(drop_gin_index_sql(index));
    }
    out.push(crate::text::to_owned(ENABLE_EXTENSION_SQL));
    out.push(create_gin_index_sql(index, table, column));
    assert(out@.map_values(|s: String| s@) =~= gin_index_statements_spec(postgres, recreate, index@, table@, column@));
    out
}

// ---------------------------------------------------------------------------
// Search plans
// ---------------------------------------------------------------------------

/// One alternative of a text search's filter.
#[derive(Debug, Clone, PartialEq, Eq)]
pub enum SearchCondition {
    /// `word_similarity(needle, LOWER(column)) >= 0.25` (PostgreSQL only);
    /// `needle` is already lower-cased.
    WordSimilarity { column: String, needle: String },
    /// `LOWER(column) LIKE pattern`.
    Contains { column: String, pattern: String },
}

/// How matches are ordered (best first).
#[derive(Debug, Clone, PartialEq, Eq)]
pub enum SearchScore {
    /// No ranking (the constant 0).
    Zero,
    /// `word_similarity(needle, LOWER(column))` of the one column.
    Similarity { column: String, needle: String },
    /// `GREATEST` of the similarity of each column.
    Greatest { columns: Vec<String>, needle: String },
}

/// The filter and ordering a text search adds to a query.
#[derive(Debug, Clone, PartialEq, Eq)]
pub struct TextSearch {
    /// Rows matching any of these are kept.
    pub conditions: Vec<SearchCondition>,
    /// Rows are ordered by this, descending.
    pub score: SearchScore,
}

/// A search condition as values: `(is_similarity, column, needle or pattern)`.
pub open spec fn condition_view(c: SearchCondition) -> (bool, Seq<char>, Seq<char>) {
    match c {
        SearchCondition::WordSimilarity { column, needle } => (true, column@, needle@),
        SearchCondition::Contains { column, pattern } => (false, column@, pattern@),
    }
}

/// The conditions for `columns`, in order: per column the similarity test on
/// PostgreSQL, then the substring match.
pub open spec fn conditions_spec(postgres: bool, columns: Seq<String>, needle: Seq<char>) -> Seq<
    (bool, Seq<char>, Seq<char>),
>
    decreases columns.len(),
{
    if columns.len() == 0 {
        seq![]
    } else {
        let c = columns.last()@;
        conditions_spec(postgres, columns.drop_last(), needle) + (if postgres {
            seq![(true, c, lowered(needle))]
        } else {
            Seq::empty()
        }) + seq![(false, c, like_pattern_spec(needle))]
    }
}

/// The filter of a text search for `needle` over `columns`.
pub fn match_conditions(postgres: bool, columns: &Vec<String>, needle: &str) -> (r: Vec<SearchCondition>)
    ensures
        r@.map_values(|c: SearchCondition| condition_view(c)) == conditions_spec(postgres, columns@, needle@),
{
    let lower = lowercase_of(needle);
    let pattern = like_contains_pattern(needle);
    let mut out: Vec<SearchCondition> = Vec::new();
    let mut i: usize = 0;
    while i < columns.len()
        invariant
            i <= columns.len(),
            lower@ == lowered(needle@),
            pattern@ == like_pattern_spec(needle@),
            out@.map_values(|c: SearchCondition| condition_view(c)) == conditions_spec(
                postgres,
                columns@.take(i as int),
                needle@,
            ),
        decreases columns.len() - i,
    {
        let ghost before = out@.map_values(|c: SearchCondition| condition_view(c));
        let col = &columns[i];
        proof {
            assert(columns@.take(i + 1).drop_last() == columns@.take(i as int));
            assert(columns@.take(i + 1).last() == *col);
        }
        if postgres {
            out.push(SearchCondition::WordSimilarity { column: col.clone(), needle: lower.clone() });
        }
        out.push(SearchCondition::Contains { column: col.clone(), pattern: pattern.clone() });
        proof {
            let now = out@.map_values(|c: SearchCondition| condition_view(c));
            let tail = (if postgres {
                seq![(true, col@, lowered(needle@))]
            } else {
                Seq::empty()
            }) + seq![(false, col@, like_pattern_spec(needle@))];
            assert(now =~= before + tail);
        }
        i = i + 1;
    }
    assert(columns@.take(columns.len() as int) == columns@);
    out
}

/// The ordering as values: `0` none, `1` one column, `2` the greatest of all.
pub open spec fn score_kind(postgres: bool, columns: Seq<String>) -> int {
    if !postgres || columns.len() == 0 {
        0
    } else if columns.len() == 1 {
        1
    } else {
        2
    }
}

/// The ordering of a text search for `needle` over `columns`.
pub fn score_plan(postgres: bool, columns: &Vec<String>, needle: &str) -> (r: SearchScore)
    ensures
        score_kind(postgres, columns@) == 0 ==> r is Zero,
        score_kind(postgres, columns@) == 1 ==> (r matches SearchScore::Similarity { column, needle: n }
            && column@ == columns@[0]@ && n@ == lowered(needle@)),
        score_kind(postgres, columns@) == 2 ==> (r matches SearchScore::Greatest { columns: cs, needle: n }
            && cs@ == columns@ && n@ == lowered(needle@)),
{
    if !postgres || columns.len() == 0 {
        return SearchScore::Zero;
    }
    let lower = lowercase_of(needle);
    if columns.len() == 1 {
        SearchScore::Similarity { column: columns[0].clone(), needle: lower }
    } else {
        let mut cs: Vec<String> = Vec::new();
        let mut i: usize = 0;
        while i < columns.len()
            invariant
                i <= columns.len(),
                cs@ == columns@.take(i as int),
            decreases columns.len() - i,
        {
            cs.push(columns[i].clone());
            proof {
                assert(cs@ =~= columns@.take(i + 1));
            }
            i = i + 1;
        }
        assert(columns@.take(columns.len() as int) == columns@);
        SearchScore::Greatest { columns: cs, needle: lower }
    }
}

/// The search a query gets for `needle` over `columns`: none for a blank needle
/// or no columns (the query is left as it is), else the filter and ordering for
/// the trimmed needle.
pub fn text_search(postgres: bool, columns: &Vec<String>, needle: &str) -> (r: Option<TextSearch>)
    ensures
        match r {
            None => crate::text::trim(needle@).len() == 0 || columns@.len() == 0,
            Some(t) => crate::text::trim(needle@).len() > 0 && columns@.len() > 0
                && t.conditions@.map_values(|c: SearchCondition| condition_view(c)) == conditions_spec(
                postgres,
                columns@,
                crate::text::trim(needle@),
            ) && (score_kind(postgres, columns@) == 0 ==> t.score is Zero)
                && (score_kind(postgres, columns@) == 1 ==> (t.score matches SearchScore::Similarity { column, needle: n }
                && column@ == columns@[0]@ && n@ == lowered(crate::text::trim(needle@))))
                && (score_kind(postgres, columns@) == 2 ==> (t.score matches SearchScore::Greatest { columns: cs, needle: n }
                && cs@ == columns@ && n@ == lowered(crate::text::trim(needle@)))),
        },
{
    let t = crate::text::trim_str(needle);
    if t.len() == 0 || columns.len() == 0 {
        return None;
    }
    let trimmed = crate::text::string_of(&t);
    let conditions = match_conditions(postgres, columns, trimmed.as_str());
    let score = score_plan(postgres, columns, trimmed.as_str());
    Some(TextSearch { conditions, score })
}

} // verus!
