//! The local store backend: membership rows of a relational store, keyed by
//! the pair (client id, group id). The library fixes the statements, which
//! write a toggle makes and what each store result means; the caller runs the
//! statements on its connection.
use vstd::prelude::*;
use crate::toggle::{toggled, Outcome, ToggleOp};

verus! {

#[verifier::external_type_specification]
#[verifier::external_body]
pub struct ExSqlError(rusqlite::Error);

/// Looks up a group's id by its name.
pub const GROUP_ID_SQL: &'static str = "SELECT id FROM \"group\" WHERE name = ?1";

/// Looks up a client's id by its comment.
pub const CLIENT_ID_SQL: &'static str = "SELECT id FROM client WHERE comment = ?1";

/// Adds a membership row.
pub const INSERT_SQL: &'static str = "INSERT INTO client_by_group (client_id, group_id) VALUES (?1, ?2)";

/// Deletes a membership row.
pub const DELETE_SQL: &'static str = "DELETE FROM client_by_group WHERE client_id = ?1 AND group_id = ?2";

/// Looks up a membership row.
pub const MEMBERSHIP_SQL: &'static str = "SELECT 1 FROM client_by_group WHERE client_id = ?1 AND group_id = ?2";

/// The statement of a membership write: an insert to add, a delete to remove.
pub open spec fn statement_of(op: ToggleOp) -> Seq<char> {
    match op {
        ToggleOp::Add => INSERT_SQL@,
        ToggleOp::Remove => DELETE_SQL@,
    }
}

/// `w` is the write that `op` makes on the pair (`client_id`, `group_id`): its
/// statement, then the client id and the group id bound to the parameters in
/// that order.
pub open spec fn write_is(w: (&'static str, i32, i32), op: ToggleOp, client_id: i32, group_id: i32) -> bool {
    w.0@ == statement_of(op) && w.1 == client_id && w.2 == group_id
}

/// The statement, and its parameters in order, of a membership write.
pub fn membership_write(op: ToggleOp, client_id: i32, group_id: i32) -> (r: (&'static str, i32, i32))
    ensures
        write_is(r, op, client_id, group_id),
{
    match op {
        ToggleOp::Add => (INSERT_SQL, client_id, group_id),
        ToggleOp::Remove => (DELETE_SQL, client_id, group_id),
    }
}

/// The result of a primitive add or remove from its write's result: success
/// whatever the number of rows changed (a delete that meets no row is no
/// error), and the store's error unchanged (an insert of a pair that is
/// already there fails with the store's constraint violation).
pub fn write_result(write: Result<usize, rusqlite::Error>) -> (r: Result<(), rusqlite::Error>)
    ensures
        match write {
            Ok(_) => r == Ok::<(), rusqlite::Error>(()),
            Err(e) => r == Err::<(), rusqlite::Error>(e),
        },
{
    match write {
        Ok(_) => Ok(()),
        Err(e) => Err(e),
    }
}

/// The toggle is towards the state the client is already in.
pub open spec fn already_there(op: ToggleOp, member: bool) -> bool {
    (op == ToggleOp::Add && member) || (op == ToggleOp::Remove && !member)
}

/// The write of a local toggle, given whether the pair is a member row: none
/// when the client is already in the desired state, else the insert or the
/// delete of the pair.
pub fn local_decision(op: ToggleOp, member: bool, client_id: i32, group_id: i32) -> (r: Option<
    (&'static str, i32, i32),
>)
    ensures
        r is None <==> already_there(op, member),
        r matches Some(w) ==> write_is(w, op, client_id, group_id),
{
    if (op == ToggleOp::Add && member) || (op == ToggleOp::Remove && !member) {
        None
    } else {
        Some(membership_write(op, client_id, group_id))
    }
}

/// The outcome of a toggle's write, from the statement's result: the store's
/// error unchanged, else `Changed`.
pub fn local_outcome(write: Result<usize, rusqlite::Error>) -> (r: Result<Outcome, rusqlite::Error>)
    ensures
        match write {
            Ok(_) => r == Ok::<Outcome, rusqlite::Error>(Outcome::Changed),
            Err(e) => r == Err::<Outcome, rusqlite::Error>(e),
        },
{
    match write {
        Ok(_) => Ok(Outcome::Changed),
        Err(e) => Err(e),
    }
}

/// In the row model, where the membership table is the set `rows` of
/// (client id, group id) pairs: the rows after a toggle of `pair`, and its
/// outcome. An add of a present pair and a remove of an absent one change
/// nothing.
pub open spec fn rows_after(op: ToggleOp, rows: Set<(i32, i32)>, pair: (i32, i32)) -> (
    Set<(i32, i32)>,
    Outcome,
) {
    match op {
        ToggleOp::Add => if rows.contains(pair) {
            (rows, Outcome::Unchanged)
        } else {
            (rows.insert(pair), Outcome::Changed)
        },
        ToggleOp::Remove => if rows.contains(pair) {
            (rows.remove(pair), Outcome::Changed)
        } else {
            (rows, Outcome::Unchanged)
        },
    }
}

/// In the row model, adding a pair that is absent and then removing it
/// restores the original rows; so does removing a present pair and adding it
/// back.
pub proof fn lemma_local_round_trip(rows: Set<(i32, i32)>, pair: (i32, i32))
    ensures
        !rows.contains(pair) ==> rows_after(
            ToggleOp::Remove,
            rows_after(ToggleOp::Add, rows, pair).0,
            pair,
        ).0 == rows,
        rows.contains(pair) ==> rows_after(
            ToggleOp::Add,
            rows_after(ToggleOp::Remove, rows, pair).0,
            pair,
        ).0 == rows,
{
    if !rows.contains(pair) {
        assert(rows.insert(pair).remove(pair) =~= rows);
    } else {
        assert(rows.remove(pair).insert(pair) =~= rows);
    }
}

/// The client `cid` holds exactly the groups of `groups` among `rows`.
pub open spec fn rows_hold(rows: Set<(i32, i32)>, cid: i32, groups: Seq<u8>) -> bool {
    &&& forall|x: u8| #[trigger] rows.contains((cid, x as i32)) <==> groups.contains(x)
    &&& forall|y: i32| #[trigger] rows.contains((cid, y)) ==> 0 <= y <= 255
}

/// The remote plan and the row model agree: where the rows of client `cid`
/// hold the same groups as the remote group set (without repeated entries),
/// `toggled` and `rows_after` report the same outcome, and afterwards the rows
/// hold the set that the full-replace update writes. Other clients' rows are
/// untouched.
pub proof fn lemma_backends_agree(
    op: ToggleOp,
    groups: Seq<u8>,
    rows: Set<(i32, i32)>,
    cid: i32,
    gid: u8,
)
    requires
        groups.no_duplicates(),
        rows_hold(rows, cid, groups),
    ensures
        ({
            let (after, outcome) = rows_after(op, rows, (cid, gid as i32));
            match toggled(op, groups, gid) {
                None => outcome == Outcome::Unchanged && after == rows,
                Some(g) => outcome == Outcome::Changed && rows_hold(after, cid, g),
            }
        }),
        forall|p: (i32, i32)|
            p.0 != cid ==> (rows_after(op, rows, (cid, gid as i32)).0.contains(p)
                <==> rows.contains(p)),
{
    let pair = (cid, gid as i32);
    assert(rows.contains(pair) <==> groups.contains(gid));
    if op == ToggleOp::Add && !groups.contains(gid) {
        let g = groups.push(gid);
        let after = rows.insert(pair);
        assert forall|x: u8| #[trigger] after.contains((cid, x as i32)) <==> g.contains(x) by {
            if g.contains(x) {
                let j = choose|j: int| 0 <= j < g.len() && g[j] == x;
                if j < groups.len() {
                    assert(groups[j] == x);
                }
            }
            if groups.contains(x) {
                let j = choose|j: int| 0 <= j < groups.len() && groups[j] == x;
                assert(g[j] == x);
            }
            if x == gid {
                assert(g[groups.len() as int] == x);
            }
        }
    }
    if op == ToggleOp::Remove && groups.contains(gid) {
        crate::toggle::lemma_toggle_keeps_no_duplicates(op, groups, gid);
        crate::toggle::lemma_toggle_idempotent(op, groups, gid);
        let g = crate::toggle::remove_first(groups, gid);
        let after = rows.remove(pair);
        crate::toggle::lemma_remove_first_members(groups, gid);
        assert forall|x: u8| #[trigger] after.contains((cid, x as i32)) <==> g.contains(x) by {
            if x != gid {
                assert(g.contains(x) <==> groups.contains(x));
            } else {
                assert(!g.contains(x));
            }
        }
    }
}

/// In the row model, adding a pair that is present or removing one that is
/// absent leaves the rows as they are and reports `Unchanged`.
pub proof fn lemma_local_noop(op: ToggleOp, rows: Set<(i32, i32)>, pair: (i32, i32))
    requires
        op == ToggleOp::Add ==> rows.contains(pair),
        op == ToggleOp::Remove ==> !rows.contains(pair),
    ensures
        rows_after(op, rows, pair) == (rows, Outcome::Unchanged),
{
}

/// In the row model, the rows after the statement `sql` runs with `pair`: an
/// insert adds the pair, a delete takes it out (a present pair is never
/// inserted: the decision runs no insert for it).
pub open spec fn statement_effect(sql: Seq<char>, rows: Set<(i32, i32)>, pair: (i32, i32)) -> Set<
    (i32, i32),
> {
    if sql == INSERT_SQL@ {
        rows.insert(pair)
    } else if sql == DELETE_SQL@ {
        rows.remove(pair)
    } else {
        rows
    }
}

/// The local toggle's decision carries out the row model: where `member` says
/// whether `rows` hold the pair, a decision `d` as `local_decision` makes it
/// either runs no write, and the model keeps the rows and reports `Unchanged`,
/// or runs a statement whose effect on the rows is what the model gives, and
/// the model reports `Changed`.
pub proof fn lemma_local_decision_model(
    op: ToggleOp,
    rows: Set<(i32, i32)>,
    client_id: i32,
    group_id: i32,
    d: Option<(&'static str, i32, i32)>,
)
    requires
        d is None <==> already_there(op, rows.contains((client_id, group_id))),
        d matches Some(w) ==> write_is(w, op, client_id, group_id),
    ensures
        match d {
            None => rows_after(op, rows, (client_id, group_id)) == (rows, Outcome::Unchanged),
            Some(w) => rows_after(op, rows, (client_id, group_id)) == (
                statement_effect(w.0@, rows, (w.1, w.2)),
                Outcome::Changed,
            ),
        },
{
    if let Some(w) = d {
        if op == ToggleOp::Remove {
            lemma_statements_differ();
        }
    }
}

/// The insert and the delete statements differ.
pub proof fn lemma_statements_differ()
    ensures
        INSERT_SQL@ != DELETE_SQL@,
{
    reveal_strlit("DELETE FROM client_by_group WHERE client_id = ?1 AND group_id = ?2");
    reveal_strlit("INSERT INTO client_by_group (client_id, group_id) VALUES (?1, ?2)");
    assert(DELETE_SQL@[0] == 'D');
    assert(INSERT_SQL@[0] == 'I');
}

/// In the row model, the primitive add and remove of a pair (the statements
/// that `membership_write` picks) undo each other: adding an absent pair and
/// then removing it restores the rows, and so does removing a present pair and
/// adding it back. An add of a present pair leaves the rows as they are.
pub proof fn lemma_primitive_round_trip(rows: Set<(i32, i32)>, pair: (i32, i32))
    ensures
        !rows.contains(pair) ==> statement_effect(
            statement_of(ToggleOp::Remove),
            statement_effect(statement_of(ToggleOp::Add), rows, pair),
            pair,
        ) == rows,
        rows.contains(pair) ==> statement_effect(
            statement_of(ToggleOp::Add),
            statement_effect(statement_of(ToggleOp::Remove), rows, pair),
            pair,
        ) == rows,
        rows.contains(pair) ==> statement_effect(statement_of(ToggleOp::Add), rows, pair) == rows,
{
    lemma_statements_differ();
    if !rows.contains(pair) {
        assert(rows.insert(pair).remove(pair) =~= rows);
    } else {
        assert(rows.remove(pair).insert(pair) =~= rows);
        assert(rows.insert(pair) =~= rows);
    }
}

} // verus!
