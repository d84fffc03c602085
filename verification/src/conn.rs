//! Connection-descriptor helpers: the administrative connection target and
//! the database DDL statements the surrounding layer issues.
use vstd::prelude::*;

verus! {

/// One database as the listing reports it: name, owner, pretty-printed size.
pub struct DatabaseInfo {
    pub name: String,
    pub owner: String,
    pub size: String,
}

/// Whether a connection string holds a path separator.
pub open spec fn has_slash(s: Seq<char>) -> bool {
    exists|i: int| 0 <= i < s.len() && s[i] == '/'
}

pub open spec fn cut_after_last_slash(s: Seq<char>) -> Seq<char>
    decreases s.len(),
{
    if s.len() == 0 {
        s
    } else if s.last() == '/' {
        s
    } else {
        cut_after_last_slash(s.drop_last())
    }
}

/// The base of a connection string: everything up to and including the
/// last slash, or the whole string when it has none.
pub open spec fn base_of(s: Seq<char>) -> Seq<char> {
    if has_slash(s) {
        cut_after_last_slash(s)
    } else {
        s
    }
}

proof fn lemma_cut_at(s: Seq<char>, i: int)
    requires
        0 < i <= s.len(),
        s[i - 1] == '/',
        forall|j: int| i <= j < s.len() ==> s[j] != '/',
    ensures
        cut_after_last_slash(s) == s.take(i),
        has_slash(s),
    decreases s.len(),
{
    if i == s.len() {
        assert(s.take(i) =~= s);
    } else {
        assert(s.last() != '/');
        lemma_cut_at(s.drop_last(), i);
        assert(s.drop_last().take(i) =~= s.take(i));
    }
}

/// Cuts a connection string back to its base: the prefix through the last
/// slash, or the unchanged string when it holds no slash.
pub fn base_connection_string(connection_string: &str) -> (r: String)
    ensures
        r@ == base_of(connection_string@),
{
    let n = connection_string.unicode_len();
    let mut i: usize = n;
    while i > 0
        invariant
            0 <= i <= n,
            n == connection_string@.len(),
            forall|j: int| i <= j < n ==> connection_string@[j] != '/',
        decreases i,
    {
        if connection_string.get_char(i - 1) == '/' {
            proof {
                lemma_cut_at(connection_string@, i as int);
            }
            let prefix = connection_string.substring_char(0, i);
            return prefix.to_owned();
        }
        i -= 1;
    }
    proof {
        assert(!has_slash(connection_string@));
    }
    connection_string.to_owned()
}

/// The connection target used to administer databases: the base of the
/// given connection string pointed at the maintenance database.
pub fn admin_connection_string(connection_string: &str) -> (r: String)
    ensures
        r@ == base_of(connection_string@) + "postgres"@,
{
    let mut out = base_connection_string(connection_string);
    out.append("postgres");
    out
}

/// The statement that creates a database of the given name.
pub fn create_database_statement(database_name: &str) -> (r: String)
    ensures
        r@ == "CREATE DATABASE "@ + database_name@,
{
    let mut out = String::from_str("CREATE DATABASE ");
    out.append(database_name);
    out
}

/// The statement that drops a database of the given name.
pub fn drop_database_statement(database_name: &str) -> (r: String)
    ensures
        r@ == "DROP DATABASE "@ + database_name@,
{
    let mut out = String::from_str("DROP DATABASE ");
    out.append(database_name);
    out
}

} // verus!
