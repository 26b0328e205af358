//! The document table as a mathematical map, and what each statement this
//! crate issues is meant to do to it. The database engine is not verified
//! against this model; the laws below are proved of the model.

use crate::keys::{default_text, is_data_key, key_names};
use vstd::prelude::*;

verus! {

/// One row of the table: the text of a document and the time, in seconds
/// since the epoch, of the write that put it there.
pub struct Row {
    pub value: Seq<char>,
    pub updated_at: int,
}

/// The table: the key is the primary key, so a key has at most one row.
pub type Table = Map<Seq<char>, Row>;

/// What a statement asks of the table.
pub enum StatementView {
    /// Add a row for the key unless the key has one.
    InsertIfAbsent { key: Seq<char>, value: Seq<char> },
    /// Add a row for the key, or replace value and time of the row it has.
    Upsert { key: Seq<char>, value: Seq<char> },
}

impl StatementView {
    /// The key of the one row the statement can touch.
    pub open spec fn key(self) -> Seq<char> {
        match self {
            StatementView::InsertIfAbsent { key, .. } => key,
            StatementView::Upsert { key, .. } => key,
        }
    }

    /// The text the statement carries.
    pub open spec fn value(self) -> Seq<char> {
        match self {
            StatementView::InsertIfAbsent { value, .. } => value,
            StatementView::Upsert { value, .. } => value,
        }
    }

    /// The table after the statement committed at time `now`.
    pub open spec fn apply(self, table: Table, now: int) -> Table {
        match self {
            StatementView::InsertIfAbsent { key, value } => if table.dom().contains(key) {
                table
            } else {
                table.insert(key, Row { value, updated_at: now })
            },
            StatementView::Upsert { key, value } => table.insert(
                key,
                Row { value, updated_at: now },
            ),
        }
    }

    /// Whether the statement seeds a key of the namespace with its default.
    pub open spec fn is_seed(self) -> bool {
        &&& self is InsertIfAbsent
        &&& is_data_key(self.key())
        &&& self.value() == default_text(self.key())
    }
}

/// A statement together with the time at which the database committed it.
pub struct Commit {
    pub statement: StatementView,
    pub at: int,
}

/// The table after a sequence of commits, the first one first. The database
/// admits one writer at a time, so whatever ran concurrently was committed
/// in some such sequence.
pub open spec fn run(table: Table, commits: Seq<Commit>) -> Table
    decreases commits.len(),
{
    if commits.len() == 0 {
        table
    } else {
        commits.last().statement.apply(run(table, commits.drop_last()), commits.last().at)
    }
}

/// The text stored for a key, if the key has a row.
pub open spec fn stored(table: Table, key: Seq<char>) -> Option<Seq<char>> {
    if table.dom().contains(key) {
        Some(table[key].value)
    } else {
        None
    }
}

/// The text a read of `key` decodes, given what the table holds for it:
/// the stored text, or the default of the key where there is no row.
pub open spec fn served_text(key: Seq<char>, row: Option<Seq<char>>) -> Seq<char> {
    match row {
        Some(text) => text,
        None => default_text(key),
    }
}

/// The text a read of `key` decodes on a given table.
pub open spec fn document_text(table: Table, key: Seq<char>) -> Seq<char> {
    served_text(key, stored(table, key))
}

/// The statements that seed the table: one for each key of the namespace,
/// in the order of the namespace, each with the default of its key.
pub open spec fn seed_statements() -> Seq<StatementView> {
    Seq::new(
        key_names().len(),
        |i: int|
            StatementView::InsertIfAbsent { key: key_names()[i], value: default_text(key_names()[i]) },
    )
}

/// The seed statements and the namespace are in step: each statement seeds
/// a key of the namespace with the default of that key, and each key of
/// the namespace has its statement.
pub proof fn seeds_match_namespace()
    ensures
        forall|i: int|
            0 <= i < seed_statements().len() ==> (#[trigger] seed_statements()[i]).is_seed(),
        forall|key: Seq<char>|
            is_data_key(key) ==> exists|i: int|
                0 <= i < seed_statements().len() && (#[trigger] seed_statements()[i]).key() == key,
{
    assert forall|i: int| 0 <= i < seed_statements().len() implies (#[trigger] seed_statements()[i]).is_seed() by {
        assert(key_names()[i] == seed_statements()[i].key());
    }
    assert forall|key: Seq<char>| is_data_key(key) implies exists|i: int|
        0 <= i < seed_statements().len() && (#[trigger] seed_statements()[i]).key() == key by {
        let i = choose|i: int| 0 <= i < key_names().len() && key_names()[i] == key;
        assert(seed_statements()[i].key() == key);
    }
}

/// Whether `commits` is one run of the seeding: the seed statements, in
/// order, each committed at some time.
pub open spec fn is_seeding(commits: Seq<Commit>) -> bool {
    &&& commits.len() == seed_statements().len()
    &&& forall|i: int| 0 <= i < commits.len() ==> (#[trigger] commits[i]).statement == seed_statements()[i]
}

/// Whether every commit replaces the document of `key`.
pub open spec fn all_write(commits: Seq<Commit>, key: Seq<char>) -> bool {
    forall|i: int|
        0 <= i < commits.len() ==> (#[trigger] commits[i]).statement is Upsert && commits[i].statement.key() == key
}

/// No statement deletes a row, and none touches the row of another key.
pub proof fn statement_keeps_other_rows(statement: StatementView, table: Table, now: int)
    ensures
        table.dom().subset_of(statement.apply(table, now).dom()),
        forall|key: Seq<char>|
            key != statement.key() ==> stored(statement.apply(table, now), key) == stored(table, key),
        forall|key: Seq<char>|
            key != statement.key() && table.dom().contains(key) ==> statement.apply(table, now)[key] == table[key],
{
}

/// Once committed, a write is what a read of the same key decodes, whatever
/// the table held before; the row carries the time of the write.
pub proof fn read_follows_write(table: Table, key: Seq<char>, value: Seq<char>, now: int)
    ensures
        ({
            let after = (StatementView::Upsert { key, value }).apply(table, now);
            &&& stored(after, key) == Some(value)
            &&& document_text(after, key) == value
            &&& after[key].updated_at == now
        }),
{
}

/// A read of a key without a row decodes the default of the key: an empty
/// object for the profile, an empty array for every other key.
pub proof fn missing_row_reads_default(table: Table, key: Seq<char>)
    requires
        !table.dom().contains(key),
    ensures
        document_text(table, key) == default_text(key),
        key == "profile"@ ==> document_text(table, key) == "{}"@,
        key != "profile"@ ==> document_text(table, key) == "[]"@,
{
}

/// Inserting where absent never changes a row that exists, gives every key
/// it names a row, and adds rows for those keys only.
pub proof fn inserts_keep_existing_rows(table: Table, commits: Seq<Commit>)
    requires
        forall|i: int| 0 <= i < commits.len() ==> (#[trigger] commits[i]).statement is InsertIfAbsent,
    ensures
        forall|key: Seq<char>|
            #![trigger table.dom().contains(key)]
            table.dom().contains(key) ==> run(table, commits).dom().contains(key) && run(
                table,
                commits,
            )[key] == table[key],
        forall|i: int|
            0 <= i < commits.len() ==> run(table, commits).dom().contains(
                (#[trigger] commits[i]).statement.key(),
            ),
        forall|key: Seq<char>|
            run(table, commits).dom().contains(key) && !table.dom().contains(key) ==> exists|
                i: int,
            |
                0 <= i < commits.len() && (#[trigger] commits[i]).statement.key() == key && run(
                    table,
                    commits,
                )[key] == (Row { value: commits[i].statement.value(), updated_at: commits[i].at }),
    decreases commits.len(),
{
    if commits.len() > 0 {
        let earlier = commits.drop_last();
        let last = commits.last();
        let before = run(table, earlier);
        let after = run(table, commits);
        inserts_keep_existing_rows(table, earlier);
        assert(after == last.statement.apply(before, last.at));
        assert forall|key: Seq<char>| table.dom().contains(key) implies after.dom().contains(key)
            && after[key] == table[key] by {
            assert(before.dom().contains(key) && before[key] == table[key]);
        }
        assert forall|i: int| 0 <= i < commits.len() implies after.dom().contains(
            (#[trigger] commits[i]).statement.key(),
        ) by {
            if i < earlier.len() {
                assert(earlier[i] == commits[i]);
            }
        }
        assert forall|key: Seq<char>|
            after.dom().contains(key) && !table.dom().contains(key) implies exists|i: int|
            0 <= i < commits.len() && (#[trigger] commits[i]).statement.key() == key && after[key]
                == (Row { value: commits[i].statement.value(), updated_at: commits[i].at }) by {
            if before.dom().contains(key) {
                let i = choose|i: int|
                    0 <= i < earlier.len() && (#[trigger] earlier[i]).statement.key() == key
                        && before[key] == (Row {
                        value: earlier[i].statement.value(),
                        updated_at: earlier[i].at,
                    });
                assert(earlier[i] == commits[i]);
            } else {
                assert(commits[commits.len() - 1] == last);
            }
        }
    }
}

/// Inserting where absent does nothing to a table that has a row for every
/// key named.
pub proof fn inserts_skip_present_keys(table: Table, commits: Seq<Commit>)
    requires
        forall|i: int|
            0 <= i < commits.len() ==> (#[trigger] commits[i]).statement is InsertIfAbsent
                && table.dom().contains(commits[i].statement.key()),
    ensures
        run(table, commits) == table,
    decreases commits.len(),
{
    if commits.len() > 0 {
        let earlier = commits.drop_last();
        assert forall|i: int| 0 <= i < earlier.len() implies (#[trigger] earlier[i]).statement is InsertIfAbsent
            && table.dom().contains(earlier[i].statement.key()) by {
            assert(earlier[i] == commits[i]);
        }
        inserts_skip_present_keys(table, earlier);
        assert(commits[commits.len() - 1] == commits.last());
    }
}

/// After seeding, every key of the namespace has a row; a row that existed
/// before is as it was; and a row that the seeding added holds the default
/// of its key. Nothing but keys of the namespace is added.
pub proof fn seeding_fills_namespace(table: Table, commits: Seq<Commit>)
    requires
        is_seeding(commits),
    ensures
        forall|key: Seq<char>| is_data_key(key) ==> run(table, commits).dom().contains(key),
        forall|key: Seq<char>|
            #![trigger table.dom().contains(key)]
            table.dom().contains(key) ==> run(table, commits).dom().contains(key) && run(
                table,
                commits,
            )[key] == table[key],
        forall|key: Seq<char>|
            run(table, commits).dom().contains(key) && !table.dom().contains(key) ==> is_data_key(
                key,
            ) && run(table, commits)[key].value == default_text(key),
{
    let after = run(table, commits);
    assert forall|i: int| 0 <= i < commits.len() implies (#[trigger] commits[i]).statement is InsertIfAbsent by {
        assert(commits[i].statement == seed_statements()[i]);
    }
    inserts_keep_existing_rows(table, commits);
    assert forall|key: Seq<char>| table.dom().contains(key) implies after.dom().contains(key)
        && after[key] == table[key] by {}
    assert forall|key: Seq<char>| is_data_key(key) implies after.dom().contains(key) by {
        let i = choose|i: int| 0 <= i < key_names().len() && key_names()[i] == key;
        assert(commits[i].statement == seed_statements()[i]);
        assert(commits[i].statement.key() == key);
    }
    assert forall|key: Seq<char>|
        after.dom().contains(key) && !table.dom().contains(key) implies is_data_key(key)
        && after[key].value == default_text(key) by {
        let i = choose|i: int|
            0 <= i < commits.len() && (#[trigger] commits[i]).statement.key() == key && after[key]
                == (Row { value: commits[i].statement.value(), updated_at: commits[i].at });
        assert(commits[i].statement == seed_statements()[i]);
        assert(key_names()[i] == key);
    }
}

/// Seeding a second time changes nothing, whenever it happens: a table in
/// which every key of the namespace has a row is left as it is, so no
/// document written since the first seeding goes back to its default.
pub proof fn seeding_again_changes_nothing(table: Table, again: Seq<Commit>)
    requires
        forall|key: Seq<char>| is_data_key(key) ==> table.dom().contains(key),
        is_seeding(again),
    ensures
        run(table, again) == table,
{
    assert forall|i: int| 0 <= i < again.len() implies (#[trigger] again[i]).statement is InsertIfAbsent
        && table.dom().contains(again[i].statement.key()) by {
        assert(again[i].statement == seed_statements()[i]);
        assert(key_names()[i] == again[i].statement.key());
        assert(is_data_key(again[i].statement.key()));
    }
    inserts_skip_present_keys(table, again);
}

/// Seeding twice in a row gives the table that seeding once gives.
pub proof fn seeding_is_idempotent(table: Table, first: Seq<Commit>, again: Seq<Commit>)
    requires
        is_seeding(first),
        is_seeding(again),
    ensures
        run(run(table, first), again) == run(table, first),
{
    seeding_fills_namespace(table, first);
    seeding_again_changes_nothing(run(table, first), again);
}

/// On a store that was only seeded, a read of any key of the namespace
/// decodes the default of the key: an empty object for the profile, an
/// empty array for every other key.
pub proof fn fresh_store_reads_defaults(commits: Seq<Commit>, key: Seq<char>)
    requires
        is_seeding(commits),
        is_data_key(key),
    ensures
        run(Map::empty(), commits).dom() == Set::new(|name: Seq<char>| is_data_key(name)),
        stored(run(Map::empty(), commits), key) == Some(default_text(key)),
        document_text(run(Map::empty(), commits), key) == default_text(key),
        key == "profile"@ ==> document_text(run(Map::empty(), commits), key) == "{}"@,
        key != "profile"@ ==> document_text(run(Map::empty(), commits), key) == "[]"@,
{
    seeding_fills_namespace(Map::empty(), commits);
    assert(run(Map::empty(), commits).dom() =~= Set::new(|name: Seq<char>| is_data_key(name)));
}

/// However many writes to one key were committed, and in whatever order,
/// the row of the key is that of the write committed last, value and time
/// both; rows of other keys are as they were.
pub proof fn last_write_wins(table: Table, key: Seq<char>, commits: Seq<Commit>)
    requires
        commits.len() > 0,
        all_write(commits, key),
    ensures
        run(table, commits).dom().contains(key),
        run(table, commits)[key] == (Row {
            value: commits.last().statement.value(),
            updated_at: commits.last().at,
        }),
        document_text(run(table, commits), key) == commits.last().statement.value(),
        forall|other: Seq<char>| other != key ==> stored(run(table, commits), other) == stored(table, other),
    decreases commits.len(),
{
    let earlier = commits.drop_last();
    assert(commits[commits.len() - 1] == commits.last());
    if earlier.len() > 0 {
        assert forall|i: int| 0 <= i < earlier.len() implies (#[trigger] earlier[i]).statement is Upsert
            && earlier[i].statement.key() == key by {
            assert(earlier[i] == commits[i]);
        }
        last_write_wins(table, key, earlier);
    }
}

/// A read that falls between concurrent writes to one key decodes a whole
/// value: what the table held before the first of them, or the value of
/// the write committed most recently. It never sees a mixture.
pub proof fn read_between_writes_sees_a_whole_value(
    table: Table,
    key: Seq<char>,
    commits: Seq<Commit>,
    seen: int,
)
    requires
        all_write(commits, key),
        0 <= seen <= commits.len(),
    ensures
        seen == 0 ==> document_text(run(table, commits.take(seen)), key) == document_text(table, key),
        seen > 0 ==> document_text(run(table, commits.take(seen)), key) == commits[seen - 1].statement.value(),
{
    let done = commits.take(seen);
    if seen > 0 {
        assert forall|i: int| 0 <= i < done.len() implies (#[trigger] done[i]).statement is Upsert
            && done[i].statement.key() == key by {
            assert(done[i] == commits[i]);
        }
        last_write_wins(table, key, done);
        assert(done.last() == commits[seen - 1]);
    }
}

/// The time of a row does not go back when a statement commits no earlier
/// than the row was last written.
pub proof fn row_time_does_not_go_back(statement: StatementView, table: Table, now: int, key: Seq<char>)
    requires
        table.dom().contains(key),
        table[key].updated_at <= now,
    ensures
        statement.apply(table, now).dom().contains(key),
        table[key].updated_at <= statement.apply(table, now)[key].updated_at,
{
}

} // verus!
