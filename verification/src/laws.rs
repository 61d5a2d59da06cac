//! The laws of the queue manager, each stated over the same spec
//! functions the handlers' contracts use and proved once and for all.

use vstd::prelude::*;

use crate::bot::{
    add_other_outcome, contains_id, dispatch_outcome, first_index, invalid_syntax_outcome,
    join_outcome, leave_outcome, lemma_first_index, lemma_first_index_at,
    lemma_no_dup_drop_first, lemma_no_dup_push, lemma_no_dup_remove, next_outcome, no_dup,
    position_outcome, remove_other_outcome,
};
use crate::parse::{cmd_of, lower_seq, tokens_of};
use crate::reply::{dec_seq, MessageType};
use crate::user::{mention_seq, User};

verus! {

/// Law: no duplicates, ever — whatever command is dispatched on a
/// duplicate-free queue, the queue it leaves behind is duplicate-free.
/// In particular no sequence of `join` and `add` commands can make an
/// identifier appear twice.
pub proof fn lemma_dispatch_preserves_no_dup(
    q: Seq<User>,
    author: User,
    mentions: Option<Seq<User>>,
    text: Seq<char>,
)
    requires
        no_dup(q),
    ensures
        no_dup(dispatch_outcome(q, author, mentions, text).0),
{
    let cmd = cmd_of(tokens_of(lower_seq(text)));
    if cmd == "join"@ && !contains_id(q, author.uuid) {
        lemma_no_dup_push(q, author);
    }
    if cmd == "leave"@ && contains_id(q, author.uuid) {
        lemma_first_index(q, author.uuid);
        lemma_no_dup_remove(q, first_index(q, author.uuid));
    }
    if cmd == "next"@ && q.len() > 0 {
        lemma_no_dup_drop_first(q);
    }
    match mentions {
        Option::Some(v) => {
            if v.len() == 1 {
                if cmd == "add"@ && !contains_id(q, v[0].uuid) {
                    lemma_no_dup_push(q, v[0]);
                }
                if cmd == "remove"@ && contains_id(q, v[0].uuid) {
                    lemma_first_index(q, v[0].uuid);
                    lemma_no_dup_remove(q, first_index(q, v[0].uuid));
                }
            }
        },
        Option::None => {},
    }
}

/// Law: `next` pops exactly the front — on a non-empty queue it names
/// the user who has waited longest, and the queue shrinks by exactly
/// one, keeping the order of the rest.
pub proof fn lemma_next_pops_front(q: Seq<User>, staff: User)
    requires
        q.len() > 0,
    ensures
        next_outcome(q, staff).0 == q.drop_first(),
        next_outcome(q, staff).0.len() == q.len() - 1,
        next_outcome(q, staff).2 == "The next person in line is "@ + mention_seq(q[0].name@),
{
}

/// Law: FIFO order under `next` — after three distinct users join an
/// empty queue in the order `a`, `b`, `c`, three `next` steps name `a`,
/// then `b`, then `c`, shrinking the queue by exactly one each time.
pub proof fn lemma_fifo_order(a: User, b: User, c: User, staff: User)
    requires
        a.uuid != b.uuid,
        a.uuid != c.uuid,
        b.uuid != c.uuid,
    ensures
        ({
            let q1 = join_outcome(Seq::<User>::empty(), a).0;
            let q2 = join_outcome(q1, b).0;
            let q3 = join_outcome(q2, c).0;
            let n1 = next_outcome(q3, staff);
            let n2 = next_outcome(n1.0, staff);
            let n3 = next_outcome(n2.0, staff);
            &&& q3 == seq![a, b, c]
            &&& n1.2 == "The next person in line is "@ + mention_seq(a.name@)
            &&& n1.0.len() == 2
            &&& n2.2 == "The next person in line is "@ + mention_seq(b.name@)
            &&& n2.0.len() == 1
            &&& n3.2 == "The next person in line is "@ + mention_seq(c.name@)
            &&& n3.0.len() == 0
        }),
{
    let q1 = join_outcome(Seq::<User>::empty(), a).0;
    let q2 = join_outcome(q1, b).0;
    let q3 = join_outcome(q2, c).0;
    assert(q1 =~= seq![a]);
    assert(q2 =~= seq![a, b]);
    assert(q3 =~= seq![a, b, c]);
    let n1 = next_outcome(q3, staff);
    assert(n1.0 =~= seq![b, c]);
    let n2 = next_outcome(n1.0, staff);
    assert(n2.0 =~= seq![c]);
}

/// Law: order is preserved under mid-queue removal — `leave` removes
/// exactly the caller's entry, and what remains is the part before it
/// followed by the part after it, in their old order.
pub proof fn lemma_leave_preserves_order(q: Seq<User>, u: User)
    requires
        contains_id(q, u.uuid),
    ensures
        ({
            let k = first_index(q, u.uuid);
            leave_outcome(q, u).0 == q.subrange(0, k) + q.subrange(k + 1, q.len() as int)
        }),
{
    lemma_first_index(q, u.uuid);
    let k = first_index(q, u.uuid);
    assert(q.remove(k) =~= q.subrange(0, k) + q.subrange(k + 1, q.len() as int));
}

/// Law: after `a`, `b`, `c` join an empty queue, `b` leaving yields the
/// queue `[a, c]` — the relative order of the rest is unchanged.
pub proof fn lemma_leave_mid_queue(a: User, b: User, c: User)
    requires
        a.uuid != b.uuid,
        a.uuid != c.uuid,
        b.uuid != c.uuid,
    ensures
        ({
            let q3 = join_outcome(join_outcome(join_outcome(Seq::<User>::empty(), a).0, b).0, c).0;
            leave_outcome(q3, b).0 == seq![a, c]
        }),
{
    let q1 = join_outcome(Seq::<User>::empty(), a).0;
    let q2 = join_outcome(q1, b).0;
    let q3 = join_outcome(q2, c).0;
    assert(q1 =~= seq![a]);
    assert(q2 =~= seq![a, b]);
    assert(q3 =~= seq![a, b, c]);
    assert(q3[1].uuid == b.uuid);
    lemma_first_index_at(q3, b.uuid, 1);
    assert(leave_outcome(q3, b).0 =~= seq![a, c]);
}

/// Law: position is 1-based and consistent — after distinct `a` then
/// `b` join an empty queue, `a` is reported at position 1 and `b` at
/// position 2.
pub proof fn lemma_position_one_based(a: User, b: User)
    requires
        a.uuid != b.uuid,
    ensures
        ({
            let q2 = join_outcome(join_outcome(Seq::<User>::empty(), a).0, b).0;
            &&& position_outcome(q2, a).2 == mention_seq(a.name@) + " You are at position "@
                + dec_seq(1)
            &&& position_outcome(q2, b).2 == mention_seq(b.name@) + " You are at position "@
                + dec_seq(2)
        }),
{
    let q1 = join_outcome(Seq::<User>::empty(), a).0;
    let q2 = join_outcome(q1, b).0;
    assert(q1 =~= seq![a]);
    assert(q2 =~= seq![a, b]);
    assert(q2[0].uuid == a.uuid);
    lemma_first_index_at(q2, a.uuid, 0);
    assert(q2[1].uuid == b.uuid);
    lemma_first_index_at(q2, b.uuid, 1);
}

/// Law: authorization gating — a non-staff caller issuing any of the
/// staff commands receives exactly the outcome of an unknown command:
/// the same invalid-syntax warning, with the queue untouched, whatever
/// the queue holds.
pub proof fn lemma_authorization_gating(
    q: Seq<User>,
    author: User,
    mentions: Option<Seq<User>>,
    text: Seq<char>,
)
    requires
        !author.is_staff,
        ({
            let cmd = cmd_of(tokens_of(lower_seq(text)));
            cmd == "next"@ || cmd == "clear"@ || cmd == "add"@ || cmd == "remove"@
        }),
    ensures
        dispatch_outcome(q, author, mentions, text) == invalid_syntax_outcome(q, author),
{
    broadcast use vstd::string::group_string_axioms;

    reveal_strlit("ping");
    reveal_strlit("join");
    reveal_strlit("leave");
    reveal_strlit("pos");
    reveal_strlit("position");
    reveal_strlit("list");
    reveal_strlit("next");
    reveal_strlit("clear");
    reveal_strlit("add");
    reveal_strlit("remove");
    assert("ping"@[0] == 'p');
    assert("join"@[0] == 'j');
    assert("leave"@[0] == 'l');
    assert("pos"@[0] == 'p');
    assert("position"@[0] == 'p');
    assert("list"@[0] == 'l');
    assert("next"@[0] == 'n');
    assert("clear"@[0] == 'c');
    assert("add"@[0] == 'a');
    assert("remove"@[0] == 'r');
}

/// Law: an unrecognized command name — including the empty name a
/// too-short message leaves — earns the invalid-syntax warning and
/// never touches the queue. Together with the gating law above, a
/// non-staff caller cannot tell a staff command from an unknown one.
pub proof fn lemma_unknown_command_is_invalid_syntax(
    q: Seq<User>,
    author: User,
    mentions: Option<Seq<User>>,
    text: Seq<char>,
)
    requires
        ({
            let cmd = cmd_of(tokens_of(lower_seq(text)));
            &&& cmd != "ping"@
            &&& cmd != "join"@
            &&& cmd != "leave"@
            &&& cmd != "pos"@
            &&& cmd != "position"@
            &&& cmd != "list"@
            &&& cmd != "next"@
            &&& cmd != "clear"@
            &&& cmd != "add"@
            &&& cmd != "remove"@
        }),
    ensures
        dispatch_outcome(q, author, mentions, text) == invalid_syntax_outcome(q, author),
{
}

/// Law: idempotent-safe `join` — joining a second time warns, returns
/// the fixed already-queued text, and leaves the queue exactly as the
/// first join left it.
pub proof fn lemma_join_twice(q: Seq<User>, u: User)
    ensures
        ({
            let q1 = join_outcome(q, u).0;
            &&& join_outcome(q1, u).0 == q1
            &&& join_outcome(q1, u).1 == Option::Some(MessageType::Warning)
            &&& join_outcome(q1, u).2 == "You are already in the queue!"@
        }),
{
    let q1 = join_outcome(q, u).0;
    if !contains_id(q, u.uuid) {
        assert(q1[q.len() as int].uuid == u.uuid);
    }
}

/// Law: idempotent-safe `leave` — on a duplicate-free queue, leaving a
/// second time warns that the caller is not queued and changes nothing.
pub proof fn lemma_leave_twice(q: Seq<User>, u: User)
    requires
        no_dup(q),
    ensures
        ({
            let q1 = leave_outcome(q, u).0;
            &&& leave_outcome(q1, u).0 == q1
            &&& leave_outcome(q1, u).1 == Option::Some(MessageType::Warning)
            &&& leave_outcome(q1, u).2 == mention_seq(u.name@) + " You are not in the queue!"@
        }),
{
    let q1 = leave_outcome(q, u).0;
    if contains_id(q, u.uuid) {
        lemma_first_index(q, u.uuid);
        let k = first_index(q, u.uuid);
        assert forall|j: int| 0 <= j < q1.len() implies q1[j].uuid != u.uuid by {
            let j0 = if j < k {
                j
            } else {
                j + 1
            };
            assert(q1[j] == q[j0]);
        }
    }
}

/// Law: mention-count validation — `add` and `remove` with zero
/// mentions, an empty mention list, or more than one mention warn the
/// caller and never mutate the queue.
pub proof fn lemma_mention_count_validation(
    q: Seq<User>,
    author: User,
    mentions: Option<Seq<User>>,
)
    requires
        match mentions {
            Option::None => true,
            Option::Some(v) => v.len() != 1,
        },
    ensures
        add_other_outcome(q, author, mentions).0 == q,
        add_other_outcome(q, author, mentions).1 == Option::Some(MessageType::Warning),
        remove_other_outcome(q, author, mentions).0 == q,
        remove_other_outcome(q, author, mentions).1 == Option::Some(MessageType::Warning),
{
}

} // verus!
