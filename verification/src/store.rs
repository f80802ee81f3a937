//! The statements by which shortcuts and history are kept in the database.
//!
//! The library does not talk to the database. It writes each statement, and
//! says what the tables hold after it: `shortcuts` maps a name to one
//! location, `history` maps a name and a location to a usage count.
use vstd::prelude::*;
use vstd::string::*;
use crate::text::{concat2, concat3, string_of};

verus! {

/// The statement that creates the table of shortcuts.
pub const SHORTCUTS_SCHEMA: &'static str =
    "CREATE TABLE IF NOT EXISTS shortcuts (name TEXT PRIMARY KEY, location TEXT NOT NULL)";

/// The statement that creates the table of history.
pub const HISTORY_SCHEMA: &'static str =
    "CREATE TABLE IF NOT EXISTS history (name TEXT NOT NULL, location TEXT NOT NULL, usage INTEGER NOT NULL, PRIMARY KEY (name, location))";

/// The character that writes the digit `d`.
pub open spec fn spec_digit(d: int) -> char {
    if d == 0 {
        '0'
    } else if d == 1 {
        '1'
    } else if d == 2 {
        '2'
    } else if d == 3 {
        '3'
    } else if d == 4 {
        '4'
    } else if d == 5 {
        '5'
    } else if d == 6 {
        '6'
    } else if d == 7 {
        '7'
    } else if d == 8 {
        '8'
    } else {
        '9'
    }
}

/// The decimal digits of `n`, without leading zeros.
pub open spec fn spec_digits(n: nat) -> Seq<char>
    decreases n,
{
    if n < 10 {
        seq![spec_digit(n as int)]
    } else {
        spec_digits(n / 10).push(spec_digit((n % 10) as int))
    }
}

/// `n` in decimal, with a minus sign where it is negative.
pub open spec fn spec_decimal(n: int) -> Seq<char> {
    if n < 0 {
        "-"@ + spec_digits((-n) as nat)
    } else {
        spec_digits(n as nat)
    }
}

/// The usage count after one more hop: one for the first hop, else one more
/// than before, as far as the column can count.
pub open spec fn spec_next_usage(current: Option<i64>) -> i64 {
    match current {
        None => 1,
        Some(u) => if u < i64::MAX {
            (u + 1) as i64
        } else {
            u
        },
    }
}

/// The usage count of a pair of name and location after `n` hops to it.
pub open spec fn usage_after(n: nat) -> Option<i64>
    decreases n,
{
    if n == 0 {
        None
    } else {
        Some(spec_next_usage(usage_after((n - 1) as nat)))
    }
}

/// The history table: the usage count of each pair of name and location
/// that was hopped to.
pub type History = Map<(Seq<char>, Seq<char>), i64>;

/// The history after one hop to `location` under `name`.
pub open spec fn record_hop(h: History, name: Seq<char>, location: Seq<char>) -> History {
    h.insert(
        (name, location),
        spec_next_usage(
            if h.dom().contains((name, location)) {
                Some(h[(name, location)])
            } else {
                None
            },
        ),
    )
}

/// The history after `n` hops to `location` under `name`.
pub open spec fn record_hops(h: History, name: Seq<char>, location: Seq<char>, n: nat) -> History
    decreases n,
{
    if n == 0 {
        h
    } else {
        record_hop(record_hops(h, name, location, (n - 1) as nat), name, location)
    }
}

/// After `n` hops a pair's usage count is `n`.
pub proof fn usage_counts_hops(n: nat)
    requires
        0 < n <= i64::MAX,
    ensures
        usage_after(n) == Some(n as i64),
    decreases n,
{
    if n > 1 {
        usage_counts_hops((n - 1) as nat);
    } else {
        assert(usage_after(0) is None);
    }
}

/// After `n` hops to a pair that the history did not hold, the pair's usage
/// count is `n`, and every other pair is as it was: a hop to another
/// location under the same name has a row and a count of its own.
pub proof fn hops_count_per_pair(h: History, name: Seq<char>, location: Seq<char>, n: nat)
    requires
        !h.dom().contains((name, location)),
        0 < n <= i64::MAX,
    ensures
        record_hops(h, name, location, n).dom() == h.dom().insert((name, location)),
        record_hops(h, name, location, n)[(name, location)] == n,
        forall|other: (Seq<char>, Seq<char>)|
            other != (name, location) && h.dom().contains(other) ==> record_hops(
                h,
                name,
                location,
                n,
            )[other] == h[other],
    decreases n,
{
    if n > 1 {
        hops_count_per_pair(h, name, location, (n - 1) as nat);
    } else {
        assert(record_hops(h, name, location, 0) == h);
    }
}

/// A hop never lowers a usage count, and keeps every pair that the history
/// held.
pub proof fn usage_never_decreases(h: History, name: Seq<char>, location: Seq<char>)
    ensures
        forall|pair: (Seq<char>, Seq<char>)|
            h.dom().contains(pair) ==> record_hop(h, name, location).dom().contains(pair)
                && record_hop(h, name, location)[pair] >= h[pair],
{
}

/// The statement that stores the shortcut `name` for `location`, in place of
/// an older shortcut of that name.
pub open spec fn spec_shortcut_insert(name: Seq<char>, location: Seq<char>) -> Seq<char> {
    "INSERT OR REPLACE INTO shortcuts (name, location) VALUES (\""@ + name + "\", \""@ + location
        + "\")"@
}

/// The statement that removes the shortcuts whose name matches `name`.
pub open spec fn spec_shortcut_remove(name: Seq<char>) -> Seq<char> {
    "DELETE FROM shortcuts WHERE name GLOB '"@ + name + "'"@
}

/// The query for the locations of the shortcuts whose name matches `name`,
/// ordered by name.
pub open spec fn spec_shortcut_find(name: Seq<char>) -> Seq<char> {
    "SELECT location FROM shortcuts WHERE name GLOB '"@ + name + "' ORDER BY name"@
}

/// The query for the history entries whose name matches `name`, the most
/// used first.
pub open spec fn spec_history_find(name: Seq<char>) -> Seq<char> {
    "SELECT location, usage FROM history WHERE name GLOB '"@ + name + "' ORDER BY usage DESC"@
}

/// The query for the usage count of the pair of `name` and `location`.
pub open spec fn spec_history_usage(name: Seq<char>, location: Seq<char>) -> Seq<char> {
    "SELECT usage FROM history WHERE name = \""@ + name + "\" AND location = \""@ + location
        + "\""@
}

/// The statement that stores `usage` as the count of the pair of `name` and
/// `location`, in place of an older count of that pair.
pub open spec fn spec_history_insert(name: Seq<char>, location: Seq<char>, usage: i64) -> Seq<
    char,
> {
    "INSERT OR REPLACE INTO history (name, location, usage) VALUES (\""@ + name + "\", \""@
        + location + "\", "@ + spec_decimal(usage as int) + ")"@
}

/// The query for the shortcuts whose name or location matches `filter`,
/// ordered by name.
pub open spec fn spec_search_shortcuts(filter: Seq<char>) -> Seq<char> {
    "SELECT name, location FROM shortcuts WHERE name GLOB '"@ + filter + "' OR location GLOB '"@
        + filter + "' ORDER BY name"@
}

/// The query for one history entry of each name whose name or location
/// matches `filter`, ordered by name.
pub open spec fn spec_search_history(filter: Seq<char>) -> Seq<char> {
    "SELECT h1.name, h1.location FROM history AS h1 INNER JOIN (SELECT name, MIN(usage) AS min_usage, MIN(location) AS min_loc FROM history WHERE name GLOB '"@
        + filter + "' OR location GLOB '"@ + filter
        + "' GROUP BY name) AS h2 ON (h1.name = h2.name AND h1.usage = h2.min_usage AND h1.location = h2.min_loc) GROUP BY h1.name, h1.location ORDER BY h1.name"@
}

/// The pattern a search looks for: `*` where no filter is given, else the
/// filter between `prefix` and `suffix`.
pub open spec fn spec_search_filter(
    prefix: Seq<char>,
    filter: Option<Seq<char>>,
    suffix: Seq<char>,
) -> Seq<char> {
    match filter {
        Some(f) => prefix + f + suffix,
        None => "*"@,
    }
}

fn digit(d: u64) -> (c: char)
    requires
        d < 10,
    ensures
        c == spec_digit(d as int),
{
    if d == 0 {
        '0'
    } else if d == 1 {
        '1'
    } else if d == 2 {
        '2'
    } else if d == 3 {
        '3'
    } else if d == 4 {
        '4'
    } else if d == 5 {
        '5'
    } else if d == 6 {
        '6'
    } else if d == 7 {
        '7'
    } else if d == 8 {
        '8'
    } else {
        '9'
    }
}

fn digits(n: u64) -> (v: Vec<char>)
    ensures
        v@ == spec_digits(n as nat),
    decreases n,
{
    if n < 10 {
        let mut v: Vec<char> = Vec::new();
        v.push(digit(n));
        v
    } else {
        let mut v = digits(n / 10);
        v.push(digit(n % 10));
        v
    }
}

/// `n` in decimal.
pub fn decimal(n: i64) -> (r: String)
    ensures
        r@ == spec_decimal(n as int),
{
    if n < 0 {
        let magnitude: u64 = ((-(n + 1)) as u64) + 1;
        let v = digits(magnitude);
        let tail = string_of(&v);
        concat2("-", tail.as_str())
    } else {
        let v = digits(n as u64);
        string_of(&v)
    }
}

/// The usage count after one more hop.
pub fn next_usage(current: Option<i64>) -> (r: i64)
    ensures
        r == spec_next_usage(current),
{
    match current {
        None => 1,
        Some(u) => if u < i64::MAX {
            u + 1
        } else {
            u
        },
    }
}

/// The statement that stores the shortcut `name` for `location`.
pub fn shortcut_insert_query(name: &str, location: &str) -> (r: String)
    ensures
        r@ == spec_shortcut_insert(name@, location@),
{
    let mut q = concat3("INSERT OR REPLACE INTO shortcuts (name, location) VALUES (\"", name, "\", \"");
    q.append(location);
    q.append("\")");
    q
}

/// The statement that removes the shortcuts whose name matches `name`.
pub fn shortcut_remove_query(name: &str) -> (r: String)
    ensures
        r@ == spec_shortcut_remove(name@),
{
    concat3("DELETE FROM shortcuts WHERE name GLOB '", name, "'")
}

/// The query for the locations of the shortcuts whose name matches `name`.
pub fn shortcut_find_query(name: &str) -> (r: String)
    ensures
        r@ == spec_shortcut_find(name@),
{
    concat3("SELECT location FROM shortcuts WHERE name GLOB '", name, "' ORDER BY name")
}

/// The query for the history entries whose name matches `name`.
pub fn history_find_query(name: &str) -> (r: String)
    ensures
        r@ == spec_history_find(name@),
{
    concat3(
        "SELECT location, usage FROM history WHERE name GLOB '",
        name,
        "' ORDER BY usage DESC",
    )
}

/// The query for the usage count of the pair of `name` and `location`.
pub fn history_usage_query(name: &str, location: &str) -> (r: String)
    ensures
        r@ == spec_history_usage(name@, location@),
{
    let mut q = concat3("SELECT usage FROM history WHERE name = \"", name, "\" AND location = \"");
    q.append(location);
    q.append("\"");
    q
}

/// The statement that stores `usage` as the count of the pair of `name` and
/// `location`.
pub fn history_insert_query(name: &str, location: &str, usage: i64) -> (r: String)
    ensures
        r@ == spec_history_insert(name@, location@, usage),
{
    let mut q = concat3(
        "INSERT OR REPLACE INTO history (name, location, usage) VALUES (\"",
        name,
        "\", \"",
    );
    q.append(location);
    q.append("\", ");
    let count = decimal(usage);
    q.append(count.as_str());
    q.append(")");
    q
}

/// The query for the shortcuts whose name or location matches `filter`.
pub fn search_shortcuts_query(filter: &str) -> (r: String)
    ensures
        r@ == spec_search_shortcuts(filter@),
{
    let mut q = concat3(
        "SELECT name, location FROM shortcuts WHERE name GLOB '",
        filter,
        "' OR location GLOB '",
    );
    q.append(filter);
    q.append("' ORDER BY name");
    q
}

/// The query for one history entry of each name whose name or location
/// matches `filter`.
pub fn search_history_query(filter: &str) -> (r: String)
    ensures
        r@ == spec_search_history(filter@),
{
    let mut q = concat3(
        "SELECT h1.name, h1.location FROM history AS h1 INNER JOIN (SELECT name, MIN(usage) AS min_usage, MIN(location) AS min_loc FROM history WHERE name GLOB '",
        filter,
        "' OR location GLOB '",
    );
    q.append(filter);
    q.append(
        "' GROUP BY name) AS h2 ON (h1.name = h2.name AND h1.usage = h2.min_usage AND h1.location = h2.min_loc) GROUP BY h1.name, h1.location ORDER BY h1.name",
    );
    q
}

/// The pattern a search looks for.
pub fn search_filter(prefix: &str, filter: Option<&str>, suffix: &str) -> (r: String)
    ensures
        r@ == spec_search_filter(
            prefix@,
            match filter {
                Some(f) => Some(f@),
                None => None,
            },
            suffix@,
        ),
{
    match filter {
        Some(f) => concat3(prefix, f, suffix),
        None => "*".to_owned(),
    }
}

} // verus!
