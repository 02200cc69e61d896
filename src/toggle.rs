//! The membership toggle: which group set a client should end up with.
use vstd::prelude::*;
use crate::data::{ClientResult, ClientsResponse, GroupResult, GroupsResponse};
use crate::json::same_text;
use crate::request::{decimal, decimal_text};

verus! {

/// Whether the client is to join or to leave the group.
#[derive(Clone, Copy, Debug, PartialEq, Eq, Structural)]
pub enum ToggleOp {
    Add,
    Remove,
}

/// What a toggle did to the membership.
#[derive(Clone, Copy, Debug, PartialEq, Eq, Structural)]
pub enum Outcome {
    Changed,
    Unchanged,
}

/// `i` is the position of the first occurrence of `x` in `s`.
pub open spec fn is_first_pos(s: Seq<u8>, x: u8, i: int) -> bool {
    &&& 0 <= i < s.len()
    &&& s[i] == x
    &&& forall|k: int| 0 <= k < i ==> s[k] != x
}

/// The position of the first occurrence of `x` in `s` (meaningful when `s` holds `x`).
pub open spec fn first_pos(s: Seq<u8>, x: u8) -> int {
    choose|i: int| is_first_pos(s, x, i)
}

/// `s` with its first occurrence of `x` taken out.
pub open spec fn remove_first(s: Seq<u8>, x: u8) -> Seq<u8> {
    s.remove(first_pos(s, x))
}

/// The group set a toggle produces, or `None` when the client is already in the
/// desired state and nothing is to be written.
pub open spec fn toggled(op: ToggleOp, groups: Seq<u8>, gid: u8) -> Option<Seq<u8>> {
    match op {
        ToggleOp::Add => if groups.contains(gid) {
            None
        } else {
            Some(groups.push(gid))
        },
        ToggleOp::Remove => if groups.contains(gid) {
            Some(remove_first(groups, gid))
        } else {
            None
        },
    }
}

proof fn lemma_first_pos_exists(s: Seq<u8>, x: u8)
    requires
        s.contains(x),
    ensures
        is_first_pos(s, x, first_pos(s, x)),
    decreases s.len(),
{
    if s[0] == x {
        assert(is_first_pos(s, x, 0));
    } else {
        let t = s.drop_first();
        let j = choose|j: int| 0 <= j < s.len() && s[j] == x;
        assert(t[j - 1] == x);
        lemma_first_pos_exists(t, x);
        let i = first_pos(t, x);
        assert forall|k: int| 0 <= k < i + 1 implies s[k] != x by {
            if k > 0 {
                assert(s[k] == t[k - 1]);
            }
        }
        assert(is_first_pos(s, x, i + 1));
    }
}

proof fn lemma_first_pos_unique(s: Seq<u8>, x: u8, i: int)
    requires
        is_first_pos(s, x, i),
    ensures
        first_pos(s, x) == i,
{
    let j = first_pos(s, x);
    assert(is_first_pos(s, x, j));
    if j < i {
        assert(s[j] != x);
    } else if i < j {
        assert(s[i] != x);
    }
}

/// Position of the first occurrence of `x` in `s`, if any.
pub fn position_of(s: &Vec<u8>, x: u8) -> (r: Option<usize>)
    ensures
        r is None <==> !s@.contains(x),
        r matches Some(i) ==> is_first_pos(s@, x, i as int) && first_pos(s@, x) == i,
{
    let mut i: usize = 0;
    while i < s.len()
        invariant
            i <= s.len(),
            forall|k: int| 0 <= k < i ==> s@[k] != x,
        decreases s.len() - i,
    {
        if s[i] == x {
            proof {
                lemma_first_pos_unique(s@, x, i as int);
            }
            return Some(i);
        }
        i = i + 1;
    }
    None
}

/// The new group set for a toggle of `gid` on `groups`, or `None` when the client
/// is already in the desired state. Adding appends the id; removing takes out its
/// first occurrence only.
pub fn plan_toggle(op: ToggleOp, groups: &Vec<u8>, gid: u8) -> (r: Option<Vec<u8>>)
    ensures
        r is None <==> toggled(op, groups@, gid) is None,
        r matches Some(v) ==> toggled(op, groups@, gid) == Some(v@),
{
    let pos = position_of(groups, gid);
    match op {
        ToggleOp::Add => {
            match pos {
                Some(_) => None,
                None => {
                    let mut v = groups.clone();
                    assert(v@ =~= groups@);
                    v.push(gid);
                    Some(v)
                },
            }
        },
        ToggleOp::Remove => {
            match pos {
                Some(i) => {
                    let mut v = groups.clone();
                    assert(v@ =~= groups@);
                    v.remove(i);
                    Some(v)
                },
                None => None,
            }
        },
    }
}

/// Adding a group that is not yet in the set and then removing it again gives
/// back the original set, element for element.
pub proof fn lemma_add_then_remove(groups: Seq<u8>, gid: u8)
    requires
        !groups.contains(gid),
    ensures
        toggled(ToggleOp::Add, groups, gid) matches Some(added) && toggled(
            ToggleOp::Remove,
            added,
            gid,
        ) == Some(groups),
{
    let added = groups.push(gid);
    assert(added[groups.len() as int] == gid);
    assert(added.contains(gid));
    assert(is_first_pos(added, gid, groups.len() as int));
    lemma_first_pos_unique(added, gid, groups.len() as int);
    assert(added.remove(groups.len() as int) =~= groups);
}

/// Removing a group whose only occurrence is the last entry and then adding it
/// again gives back the original set, element for element. (Where the group is
/// not last, or occurs twice, the re-added id lands elsewhere or is not added.)
pub proof fn lemma_remove_then_add(groups: Seq<u8>, gid: u8)
    requires
        is_first_pos(groups, gid, groups.len() - 1),
    ensures
        toggled(ToggleOp::Remove, groups, gid) matches Some(removed) && toggled(
            ToggleOp::Add,
            removed,
            gid,
        ) == Some(groups),
{
    let n = groups.len() - 1;
    assert(groups.contains(gid));
    lemma_first_pos_unique(groups, gid, n);
    let removed = groups.remove(n);
    assert(removed =~= groups.drop_last());
    assert(!removed.contains(gid));
    assert(removed.push(gid) =~= groups);
}

/// Removing a group the client holds and adding it again, on a set without
/// repeated entries, restores the same set of groups.
pub proof fn lemma_remove_then_add_same_members(groups: Seq<u8>, gid: u8)
    requires
        groups.contains(gid),
        groups.no_duplicates(),
    ensures
        toggled(ToggleOp::Remove, groups, gid) matches Some(removed) && toggled(
            ToggleOp::Add,
            removed,
            gid,
        ) matches Some(restored) && restored.to_set() == groups.to_set(),
{
    lemma_first_pos_exists(groups, gid);
    let p = first_pos(groups, gid);
    let removed = groups.remove(p);
    assert(!removed.contains(gid)) by {
        if removed.contains(gid) {
            let j = choose|j: int| 0 <= j < removed.len() && removed[j] == gid;
            if j < p {
                assert(groups[j] == gid);
            } else {
                assert(groups[j + 1] == gid);
            }
        }
    }
    let restored = removed.push(gid);
    assert forall|x: u8| restored.to_set().contains(x) <==> groups.to_set().contains(x) by {
        if groups.contains(x) {
            let j = choose|j: int| 0 <= j < groups.len() && groups[j] == x;
            if j < p {
                assert(restored[j] == x);
            } else if j > p {
                assert(restored[j - 1] == x);
            } else {
                assert(restored[removed.len() as int] == x);
            }
        }
        if restored.contains(x) {
            let j = choose|j: int| 0 <= j < restored.len() && restored[j] == x;
            if j < p {
                assert(groups[j] == x);
            } else if j < removed.len() {
                assert(groups[j + 1] == x);
            } else {
                assert(groups[p] == x);
            }
        }
    }
    assert(restored.to_set() =~= groups.to_set());
}

/// Taking out the first occurrence of a group that the set holds, on a set
/// without repeated entries, keeps every other group and drops that one.
pub proof fn lemma_remove_first_members(groups: Seq<u8>, gid: u8)
    requires
        groups.contains(gid),
        groups.no_duplicates(),
    ensures
        forall|x: u8| #[trigger] remove_first(groups, gid).contains(x) <==> (groups.contains(x) && x != gid),
{
    lemma_first_pos_exists(groups, gid);
    let p = first_pos(groups, gid);
    let s = groups.remove(p);
    assert forall|x: u8| #[trigger] s.contains(x) <==> (groups.contains(x) && x != gid) by {
        if s.contains(x) {
            let j = choose|j: int| 0 <= j < s.len() && s[j] == x;
            if j < p {
                assert(groups[j] == x);
            } else {
                assert(groups[j + 1] == x);
            }
        }
        if groups.contains(x) && x != gid {
            let j = choose|j: int| 0 <= j < groups.len() && groups[j] == x;
            if j < p {
                assert(s[j] == x);
            } else {
                assert(j != p);
                assert(s[j - 1] == x);
            }
        }
    }
}

/// A toggle never introduces a repeated entry into a set that has none.
pub proof fn lemma_toggle_keeps_no_duplicates(op: ToggleOp, groups: Seq<u8>, gid: u8)
    requires
        groups.no_duplicates(),
    ensures
        toggled(op, groups, gid) matches Some(s) ==> s.no_duplicates(),
{
    if groups.contains(gid) && op == ToggleOp::Remove {
        lemma_first_pos_exists(groups, gid);
        let p = first_pos(groups, gid);
        let s = groups.remove(p);
        assert forall|i: int, j: int| 0 <= i < s.len() && 0 <= j < s.len() && i != j implies s[i]
            != s[j] by {
            let gi = if i < p { i } else { i + 1 };
            let gj = if j < p { j } else { j + 1 };
            assert(s[i] == groups[gi]);
            assert(s[j] == groups[gj]);
        }
    }
}

/// Toggling the same way twice changes nothing the second time.
pub proof fn lemma_toggle_idempotent(op: ToggleOp, groups: Seq<u8>, gid: u8)
    requires
        groups.no_duplicates(),
    ensures
        toggled(op, groups, gid) matches Some(s) ==> toggled(op, s, gid) is None,
{
    if op == ToggleOp::Add && !groups.contains(gid) {
        let s = groups.push(gid);
        assert(s[groups.len() as int] == gid);
    }
    if op == ToggleOp::Remove && groups.contains(gid) {
        lemma_first_pos_exists(groups, gid);
        let p = first_pos(groups, gid);
        let s = groups.remove(p);
        assert(!s.contains(gid)) by {
            if s.contains(gid) {
                let j = choose|j: int| 0 <= j < s.len() && s[j] == gid;
                if j < p {
                    assert(groups[j] == gid);
                } else {
                    assert(groups[j + 1] == gid);
                    assert(groups[p] == gid);
                }
            }
        }
    }
}

/// Why a toggle could not be carried out.
#[derive(Debug)]
pub enum ToggleError {
    /// No group has the name given.
    GroupNotFound(String),
    /// No client has the comment given.
    ClientNotFound(String),
}

/// The full-replace write that a toggle on the remote backend asks for.
#[derive(Debug)]
pub struct ClientUpdate {
    /// The client's id, as the decimal text that the endpoint takes.
    pub client_id: String,
    pub comment: String,
    /// The client's new, complete group set.
    pub groups: Vec<u8>,
}

/// `i` is the first group in `groups` named `name`.
pub open spec fn first_group_named(groups: Seq<GroupResult>, name: Seq<char>, i: int) -> bool {
    &&& 0 <= i < groups.len()
    &&& groups[i].name@ == name
    &&& forall|k: int| 0 <= k < i ==> groups[k].name@ != name
}

/// `i` is the first client in `clients` whose comment is `comment`.
pub open spec fn first_client_with(clients: Seq<ClientResult>, comment: Seq<char>, i: int) -> bool {
    &&& 0 <= i < clients.len()
    &&& clients[i].comment@ == comment
    &&& forall|k: int| 0 <= k < i ==> clients[k].comment@ != comment
}

/// Resolves the target group: the id of the first listed group named
/// `group_name`, or `GroupNotFound`.
pub fn select_group(groups: &GroupsResponse, group_name: &str) -> (r: Result<u8, ToggleError>)
    ensures
        r is Err <==> forall|k: int|
            0 <= k < groups.groups@.len() ==> (#[trigger] groups.groups@[k]).name@ != group_name@,
        r matches Err(e) ==> e matches ToggleError::GroupNotFound(n) && n@ == group_name@,
        r matches Ok(id) ==> exists|i: int|
            first_group_named(groups.groups@, group_name@, i) && groups.groups@[i].id == id,
{
    let list = &groups.groups;
    let mut i: usize = 0;
    while i < list.len()
        invariant
            list@ == groups.groups@,
            i <= list@.len(),
            forall|k: int| 0 <= k < i ==> (#[trigger] list@[k]).name@ != group_name@,
        decreases list@.len() - i,
    {
        if same_text(list[i].name.as_str(), group_name) {
            assert(first_group_named(list@, group_name@, i as int));
            return Ok(list[i].id);
        }
        i = i + 1;
    }
    Err(ToggleError::GroupNotFound(String::from_str(group_name)))
}

/// Resolves the target client: the position of the first client whose comment
/// is `comment`. Comments need not be unique; the first match wins.
pub fn find_client(clients: &Vec<ClientResult>, comment: &str) -> (r: Option<usize>)
    ensures
        r is None <==> forall|k: int|
            0 <= k < clients@.len() ==> (#[trigger] clients@[k]).comment@ != comment@,
        r matches Some(i) ==> first_client_with(clients@, comment@, i as int),
{
    let mut i: usize = 0;
    while i < clients.len()
        invariant
            i <= clients@.len(),
            forall|k: int| 0 <= k < i ==> (#[trigger] clients@[k]).comment@ != comment@,
        decreases clients@.len() - i,
    {
        if same_text(clients[i].comment.as_str(), comment) {
            return Some(i);
        }
        i = i + 1;
    }
    None
}

/// What a remote toggle of group `gid` on the client with comment `comment`
/// yields, given the listed clients: `ClientNotFound` when no client has that
/// comment; `None` when the client is already in the desired state; else the
/// full-replace update with the toggled group set.
pub open spec fn remote_plan(
    op: ToggleOp,
    gid: u8,
    clients: Seq<ClientResult>,
    comment: Seq<char>,
    r: Result<Option<ClientUpdate>, ToggleError>,
) -> bool {
    if forall|k: int| 0 <= k < clients.len() ==> (#[trigger] clients[k]).comment@ != comment {
        r matches Err(ToggleError::ClientNotFound(n)) && n@ == comment
    } else {
        exists|i: int|
            #![trigger clients[i]]
            first_client_with(clients, comment, i) && match toggled(op, clients[i].groups@, gid) {
                None => r matches Ok(None),
                Some(g) => r matches Ok(Some(u)) && u.client_id@ == decimal(clients[i].id)
                    && u.comment@ == clients[i].comment@ && u.groups@ == g,
            }
    }
}

/// Plans a toggle on the remote backend once the group is resolved to `gid`.
pub fn plan_client_update(op: ToggleOp, gid: u8, clients: &ClientsResponse, comment: &str) -> (r:
    Result<Option<ClientUpdate>, ToggleError>)
    ensures
        remote_plan(op, gid, clients.clients@, comment@, r),
{
    match find_client(&clients.clients, comment) {
        None => Err(ToggleError::ClientNotFound(String::from_str(comment))),
        Some(i) => {
            let c = &clients.clients[i];
            let r = match plan_toggle(op, &c.groups, gid) {
                None => Ok(None),
                Some(groups) => Ok(
                    Some(
                        ClientUpdate {
                            client_id: decimal_text(c.id),
                            comment: c.comment.clone(),
                            groups,
                        },
                    ),
                ),
            };
            assert(first_client_with(clients.clients@, comment@, i as int));
            r
        },
    }
}

/// A toggle towards the state the client is already in plans no write: adding
/// a group it holds, or removing one it does not hold, makes the remote plan
/// `Ok(None)`, so no update is sent.
pub proof fn lemma_noop_toggle_plans_no_write(
    op: ToggleOp,
    gid: u8,
    clients: Seq<ClientResult>,
    comment: Seq<char>,
    r: Result<Option<ClientUpdate>, ToggleError>,
    i: int,
)
    requires
        remote_plan(op, gid, clients, comment, r),
        first_client_with(clients, comment, i),
        op == ToggleOp::Add ==> clients[i].groups@.contains(gid),
        op == ToggleOp::Remove ==> !clients[i].groups@.contains(gid),
    ensures
        r matches Ok(None),
{
    assert(clients[i].comment@ == comment);
    let j = choose|j: int|
        #![trigger clients[j]]
        first_client_with(clients, comment, j) && match toggled(op, clients[j].groups@, gid) {
            None => r matches Ok(None),
            Some(g) => r matches Ok(Some(u)) && u.client_id@ == decimal(clients[j].id)
                && u.comment@ == clients[j].comment@ && u.groups@ == g,
        };
    if j < i {
        assert(clients[j].comment@ != comment);
    } else if i < j {
        assert(clients[i].comment@ != comment);
    }
}

} // verus!
