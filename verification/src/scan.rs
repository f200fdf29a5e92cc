use vstd::prelude::*;
use crate::accounting::Ballot;
use crate::table::Table;
use crate::utils::{DEFAULT_LIMIT, MAX_LIMIT, OrderBy, PollStatus, VoteInfo};

verus! {

/// How many entries a scan hands out: what the caller asks for, ten when
/// nothing is asked, and never more than thirty.
pub open spec fn limit_of(limit: Option<u32>) -> nat {
    match limit {
        Some(l) => if l < MAX_LIMIT {
            l as nat
        } else {
            MAX_LIMIT as nat
        },
        None => DEFAULT_LIMIT as nat,
    }
}

/// Computes `limit_of`.
pub fn page_limit(limit: Option<u32>) -> (n: usize)
    ensures
        n == limit_of(limit),
{
    match limit {
        Some(l) => if l < MAX_LIMIT {
            l as usize
        } else {
            MAX_LIMIT as usize
        },
        None => DEFAULT_LIMIT as usize,
    }
}

/// Whether a scan goes upwards: only when that is asked for.
pub open spec fn ascending(order_by: Option<OrderBy>) -> bool {
    order_by == Some(OrderBy::Asc)
}

/// Whether `poll` passes the filter: any poll when there is none, else one
/// of that status.
pub open spec fn passes<P: Ballot>(poll: P, filter: Option<PollStatus>) -> bool {
    filter is None || poll.ballot_status() == filter->0
}

/// The index of a status: the ids of the polls that have it.
pub open spec fn status_index<P: Ballot>(polls: Seq<P>, status: PollStatus) -> Set<u64> {
    Set::new(|id: u64| 1 <= id <= polls.len() && polls[id - 1].ballot_status() == status)
}

/// Every poll stands in the index of its status and in no other, so that a
/// poll whose status changes leaves the one index as it enters the other.
pub proof fn law_index_holds_each_poll_once<P: Ballot>(polls: Seq<P>, poll_id: u64, status: PollStatus)
    requires
        1 <= poll_id <= polls.len(),
    ensures
        status_index(polls, status).contains(poll_id) <==> polls[poll_id - 1].ballot_status()
            == status,
{
}

/// A page over a status holds ids of the index of that status only.
pub proof fn law_page_within_index<P: Ballot>(
    polls: Seq<P>,
    status: PollStatus,
    start_after: Option<u64>,
    limit: Option<u32>,
    order_by: Option<OrderBy>,
    k: int,
)
    requires
        polls.len() <= u64::MAX,
        0 <= k < poll_page(polls, Some(status), start_after, limit, order_by).len(),
    ensures
        status_index(polls, status).contains(
            poll_page(polls, Some(status), start_after, limit, order_by)[k],
        ),
{
    if ascending(order_by) {
        let from = match start_after {
            Some(s) => s as int,
            None => 0,
        };
        lemma_scan_up_within(polls, status, from, limit_of(limit), k);
    } else {
        let below = match start_after {
            Some(s) => if s == 0 {
                0
            } else if s - 1 < polls.len() {
                s - 1
            } else {
                polls.len() as int
            },
            None => polls.len() as int,
        };
        lemma_scan_down_within(polls, status, below, limit_of(limit), k);
    }
}

proof fn lemma_scan_up_within<P: Ballot>(polls: Seq<P>, status: PollStatus, from: int, limit: nat, k: int)
    requires
        polls.len() <= u64::MAX,
        0 <= k < scan_up(polls, Some(status), from, limit).len(),
    ensures
        status_index(polls, status).contains(scan_up(polls, Some(status), from, limit)[k]),
    decreases polls.len() - from,
{
    if passes(polls[from], Some(status)) {
        if k > 0 {
            lemma_scan_up_within(polls, status, from + 1, (limit - 1) as nat, k - 1);
        }
    } else {
        lemma_scan_up_within(polls, status, from + 1, limit, k);
    }
}

proof fn lemma_scan_down_within<P: Ballot>(
    polls: Seq<P>,
    status: PollStatus,
    below: int,
    limit: nat,
    k: int,
)
    requires
        polls.len() <= u64::MAX,
        0 <= k < scan_down(polls, Some(status), below, limit).len(),
    ensures
        status_index(polls, status).contains(scan_down(polls, Some(status), below, limit)[k]),
    decreases below,
{
    if passes(polls[below - 1], Some(status)) {
        if k > 0 {
            lemma_scan_down_within(polls, status, below - 1, (limit - 1) as nat, k - 1);
        }
    } else {
        lemma_scan_down_within(polls, status, below - 1, limit, k);
    }
}

/// The ids of the first `limit` polls that pass the filter, going up from
/// the poll at position `from`.
pub open spec fn scan_up<P: Ballot>(polls: Seq<P>, filter: Option<PollStatus>, from: int, limit: nat)
    -> Seq<u64>
    decreases polls.len() - from,
{
    if from < 0 || from >= polls.len() || limit == 0 {
        Seq::empty()
    } else if passes(polls[from], filter) {
        seq![(from + 1) as u64] + scan_up(polls, filter, from + 1, (limit - 1) as nat)
    } else {
        scan_up(polls, filter, from + 1, limit)
    }
}

/// The ids of the first `limit` polls that pass the filter, going down from
/// the poll just under position `below`.
pub open spec fn scan_down<P: Ballot>(
    polls: Seq<P>,
    filter: Option<PollStatus>,
    below: int,
    limit: nat,
) -> Seq<u64>
    decreases below,
{
    if below <= 0 || below > polls.len() || limit == 0 {
        Seq::empty()
    } else if passes(polls[below - 1], filter) {
        seq![below as u64] + scan_down(polls, filter, below - 1, (limit - 1) as nat)
    } else {
        scan_down(polls, filter, below - 1, limit)
    }
}

/// One page of poll ids: the ids of the polls that pass the filter, in
/// ascending order strictly after `start_after` when that is asked for, else
/// in descending order strictly before it, cut off at the limit.
pub open spec fn poll_page<P: Ballot>(
    polls: Seq<P>,
    filter: Option<PollStatus>,
    start_after: Option<u64>,
    limit: Option<u32>,
    order_by: Option<OrderBy>,
) -> Seq<u64> {
    if ascending(order_by) {
        scan_up(
            polls,
            filter,
            match start_after {
                Some(s) => s as int,
                None => 0,
            },
            limit_of(limit),
        )
    } else {
        scan_down(
            polls,
            filter,
            match start_after {
                Some(s) => if s == 0 {
                    0
                } else if s - 1 < polls.len() {
                    s - 1
                } else {
                    polls.len() as int
                },
                None => polls.len() as int,
            },
            limit_of(limit),
        )
    }
}

/// Reads one page of poll ids off the list of polls.
pub fn read_poll_ids<P: Ballot>(
    polls: &Vec<P>,
    filter: Option<PollStatus>,
    start_after: Option<u64>,
    limit: Option<u32>,
    order_by: Option<OrderBy>,
) -> (ids: Vec<u64>)
    requires
        polls@.len() <= u64::MAX,
    ensures
        ids@ == poll_page(polls@, filter, start_after, limit, order_by),
        forall|k: int| 0 <= k < ids@.len() ==> 1 <= #[trigger] ids@[k] <= polls@.len(),
{
    let n = polls.len();
    let limit = page_limit(limit);
    let mut ids: Vec<u64> = Vec::new();
    let up = match order_by {
        Some(OrderBy::Asc) => true,
        _ => false,
    };
    if up {
        let start: u64 = match start_after {
            Some(s) => s,
            None => 0,
        };
        if start >= n as u64 {
            return ids;
        }
        let mut i: usize = start as usize;
        let ghost whole = scan_up(polls@, filter, start as int, limit as nat);
        while i < n && ids.len() < limit
            invariant
                n == polls@.len(),
                n <= u64::MAX,
                i <= n,
                ids@.len() <= limit,
                whole == ids@ + scan_up(polls@, filter, i as int, (limit - ids@.len()) as nat),
                forall|k: int| 0 <= k < ids@.len() ==> 1 <= #[trigger] ids@[k] <= polls@.len(),
            decreases n - i,
        {
            let ok = match filter {
                Some(f) => polls[i].current_status() == f,
                None => true,
            };
            if ok {
                let ghost before = ids@;
                ids.push((i + 1) as u64);
                proof {
                    let rest = scan_up(
                        polls@,
                        filter,
                        i + 1,
                        (limit - before.len() - 1) as nat,
                    );
                }
            }
            i = i + 1;
        }
    } else {
        let mut i: usize = match start_after {
            Some(s) => if s == 0 {
                0
            } else if s - 1 < n as u64 {
                (s - 1) as usize
            } else {
                n
            },
            None => n,
        };
        let ghost whole = scan_down(polls@, filter, i as int, limit as nat);
        while i > 0 && ids.len() < limit
            invariant
                n == polls@.len(),
                n <= u64::MAX,
                i <= n,
                ids@.len() <= limit,
                whole == ids@ + scan_down(polls@, filter, i as int, (limit - ids@.len()) as nat),
                forall|k: int| 0 <= k < ids@.len() ==> 1 <= #[trigger] ids@[k] <= polls@.len(),
            decreases i,
        {
            let ok = match filter {
                Some(f) => polls[i - 1].current_status() == f,
                None => true,
            };
            if ok {
                let ghost before = ids@;
                ids.push(i as u64);
                proof {
                    let rest = scan_down(
                        polls@,
                        filter,
                        i - 1,
                        (limit - before.len() - 1) as nat,
                    );
                }
            }
            i = i - 1;
        }
    }
    ids
}

/// Whether `a` comes before `b` in the order of byte strings, decided from
/// position `i` on.
pub open spec fn bytes_lt_from(a: Seq<u8>, b: Seq<u8>, i: int) -> bool
    decreases a.len() - i,
{
    if i < 0 || i >= b.len() {
        false
    } else if i >= a.len() {
        true
    } else if a[i] != b[i] {
        a[i] < b[i]
    } else {
        bytes_lt_from(a, b, i + 1)
    }
}

/// Whether `a` comes before `b` in the order of byte strings: at the first
/// position where they differ `a` has the smaller byte, or `a` ends there.
pub open spec fn bytes_lt(a: Seq<u8>, b: Seq<u8>) -> bool {
    bytes_lt_from(a, b, 0)
}

/// Whether the key `a` comes before the key `b`: by their bytes in UTF-8.
pub open spec fn key_lt(a: Seq<char>, b: Seq<char>) -> bool {
    bytes_lt(vstd::utf8::encode_utf8(a), vstd::utf8::encode_utf8(b))
}

/// Byte strings that agree up to `i` are equal, or one comes before the
/// other, and never both.
pub proof fn lemma_bytes_total(a: Seq<u8>, b: Seq<u8>, i: int)
    requires
        0 <= i <= a.len(),
        i <= b.len(),
        forall|j: int| 0 <= j < i ==> a[j] == b[j],
    ensures
        a == b || bytes_lt_from(a, b, i) || bytes_lt_from(b, a, i),
        !(bytes_lt_from(a, b, i) && bytes_lt_from(b, a, i)),
        a == b ==> !bytes_lt_from(a, b, i),
    decreases a.len() - i,
{
    if i < a.len() && i < b.len() && a[i] == b[i] {
        lemma_bytes_total(a, b, i + 1);
    }
}

/// The order of byte strings is transitive.
pub proof fn lemma_bytes_transitive(a: Seq<u8>, b: Seq<u8>, c: Seq<u8>, i: int)
    requires
        0 <= i,
        bytes_lt_from(a, b, i),
        bytes_lt_from(b, c, i),
    ensures
        bytes_lt_from(a, c, i),
    decreases b.len() - i,
{
    if i < a.len() && i < b.len() && i < c.len() {
        if a[i] == b[i] && b[i] == c[i] {
            lemma_bytes_transitive(a, b, c, i + 1);
        }
    }
}

/// Different keys have different bytes, so that of two different keys one
/// comes before the other, and never both; no key comes before itself.
pub proof fn lemma_key_total(a: Seq<char>, b: Seq<char>)
    ensures
        a == b || key_lt(a, b) || key_lt(b, a),
        !(key_lt(a, b) && key_lt(b, a)),
        !key_lt(a, a),
{
    vstd::utf8::encode_utf8_decode_utf8(a);
    vstd::utf8::encode_utf8_decode_utf8(b);
    lemma_bytes_total(vstd::utf8::encode_utf8(a), vstd::utf8::encode_utf8(b), 0);
    lemma_bytes_total(vstd::utf8::encode_utf8(a), vstd::utf8::encode_utf8(a), 0);
}

/// The order of keys is transitive.
pub proof fn lemma_key_transitive(a: Seq<char>, b: Seq<char>, c: Seq<char>)
    requires
        key_lt(a, b),
        key_lt(b, c),
    ensures
        key_lt(a, c),
{
    lemma_bytes_transitive(
        vstd::utf8::encode_utf8(a),
        vstd::utf8::encode_utf8(b),
        vstd::utf8::encode_utf8(c),
        0,
    );
}

/// Whether the key `a` comes before the key `b`.
pub fn key_less(a: &String, b: &String) -> (r: bool)
    ensures
        r == key_lt(a@, b@),
{
    let x = a.as_str().as_bytes();
    let y = b.as_str().as_bytes();
    let n = x.len();
    let m = y.len();
    let mut i: usize = 0;
    while i < n && i < m
        invariant
            n == x@.len(),
            m == y@.len(),
            i <= n,
            i <= m,
            x@ == vstd::utf8::encode_utf8(a@),
            y@ == vstd::utf8::encode_utf8(b@),
            bytes_lt(x@, y@) == bytes_lt_from(x@, y@, i as int),
        decreases n - i,
    {
        if x[i] != y[i] {
            return x[i] < y[i];
        }
        i = i + 1;
    }
    i < m
}

/// Whether `k` lies beyond `prev` in the direction of the scan; every key
/// does when there is no `prev`.
pub open spec fn beyond(asc: bool, prev: Option<Seq<char>>, k: Seq<char>) -> bool {
    match prev {
        None => true,
        Some(c) => if asc {
            key_lt(c, k)
        } else {
            key_lt(k, c)
        },
    }
}

/// Whether `out` is the page of at most `limit` votes on record that lie
/// beyond `cursor`: the votes come in the order of their keys, each one
/// stands in the table beyond the cursor, and a vote in the table beyond
/// the cursor is missing only when the page is full and the vote lies
/// beyond its last.
pub open spec fn is_voters_page(
    table: Table<VoteInfo>,
    cursor: Option<Seq<char>>,
    asc: bool,
    limit: nat,
    out: Seq<(String, VoteInfo)>,
) -> bool {
    &&& out.len() <= limit
    &&& forall|k: int|
        0 <= k < out.len() ==> table.get((#[trigger] out[k]).0@) == Some(out[k].1) && beyond(
            asc,
            cursor,
            out[k].0@,
        )
    &&& forall|a: int, b: int|
        0 <= a < b < out.len() ==> beyond(asc, Some((#[trigger] out[a]).0@), (#[trigger] out[b]).0@)
    &&& forall|key: Seq<char>|
        #![trigger table.has(key)]
        table.has(key) && beyond(asc, cursor, key) ==> listed(out, key) || (out.len() == limit && (
        limit == 0 || beyond(asc, Some(out.last().0@), key)))
}

/// Whether a vote is listed under `key`.
pub open spec fn listed(out: Seq<(String, VoteInfo)>, key: Seq<char>) -> bool {
    exists|k: int| 0 <= k < out.len() && (#[trigger] out[k]).0@ == key
}

/// Whether the key `k` lies beyond `prev` in the direction of the scan.
fn is_beyond(asc: bool, prev: &Option<String>, k: &String) -> (r: bool)
    ensures
        r == beyond(asc, crate::utils::opt_view(*prev), k@),
{
    match prev {
        None => true,
        Some(c) => if asc {
            key_less(c, k)
        } else {
            key_less(k, c)
        },
    }
}

/// Reads one page of the votes on record in a poll, in the order of their
/// keys: upwards from `start_after` when `asc`, else downwards.
pub fn read_poll_voters(
    table: &Table<VoteInfo>,
    start_after: Option<String>,
    limit: Option<u32>,
    asc: bool,
) -> (out: Vec<(String, VoteInfo)>)
    requires
        table.wf(),
    ensures
        is_voters_page(*table, crate::utils::opt_view(start_after), asc, limit_of(limit), out@),
{
    let limit = page_limit(limit);
    let n = table.len();
    let ghost cursor = crate::utils::opt_view(start_after);
    let mut out: Vec<(String, VoteInfo)> = Vec::new();
    let mut prev: Option<String> = None;
    let mut done = false;
    while out.len() < limit && !done
        invariant
            table.wf(),
            n == table.keys@.len(),
            cursor == crate::utils::opt_view(start_after),
            out@.len() <= limit,
            crate::utils::opt_view(prev) == (if out@.len() == 0 {
                None
            } else {
                Some(out@.last().0@)
            }),
            forall|k: int|
                0 <= k < out@.len() ==> table.get((#[trigger] out@[k]).0@) == Some(out@[k].1)
                    && beyond(asc, cursor, out@[k].0@),
            forall|a: int, b: int|
                0 <= a < b < out@.len() ==> beyond(
                    asc,
                    Some((#[trigger] out@[a]).0@),
                    (#[trigger] out@[b]).0@,
                ),
            forall|key: Seq<char>|
                #![trigger table.has(key)]
                table.has(key) && beyond(asc, cursor, key) ==> listed(out@, key) || (if done {
                    false
                } else {
                    beyond(asc, crate::utils::opt_view(prev), key)
                }),
        decreases limit - out@.len() + (if done { 0nat } else { 1nat }),
    {
        let mut best: Option<usize> = None;
        let mut i: usize = 0;
        while i < n
            invariant
                table.wf(),
                n == table.keys@.len(),
                i <= n,
                cursor == crate::utils::opt_view(start_after),
                match best {
                    Some(m) => m < i && beyond(asc, cursor, table.keys@[m as int]@) && beyond(
                        asc,
                        crate::utils::opt_view(prev),
                        table.keys@[m as int]@,
                    ),
                    None => true,
                },
                forall|j: int|
                    0 <= j < i && beyond(asc, cursor, (#[trigger] table.keys@[j])@) && beyond(
                        asc,
                        crate::utils::opt_view(prev),
                        table.keys@[j]@,
                    ) ==> best is Some && (j == best->0 || beyond(
                        asc,
                        Some(table.keys@[best->0 as int]@),
                        table.keys@[j]@,
                    )),
            decreases n - i,
        {
            if is_beyond(asc, &start_after, &table.keys[i]) && is_beyond(asc, &prev, &table.keys[i]) {
                let better = match best {
                    None => true,
                    Some(m) => if asc {
                        key_less(&table.keys[i], &table.keys[m])
                    } else {
                        key_less(&table.keys[m], &table.keys[i])
                    },
                };
                proof {
                    if best is Some {
                        let m = best->0 as int;
                        lemma_key_total(table.keys@[m]@, table.keys@[i as int]@);
                        if better {
                            assert forall|j: int|
                                0 <= j < i && beyond(asc, cursor, (#[trigger] table.keys@[j])@)
                                    && beyond(
                                    asc,
                                    crate::utils::opt_view(prev),
                                    table.keys@[j]@,
                                ) implies j == i || beyond(
                                asc,
                                Some(table.keys@[i as int]@),
                                table.keys@[j]@,
                            ) by {
                                if j != m {
                                    if asc {
                                        lemma_key_transitive(
                                            table.keys@[i as int]@,
                                            table.keys@[m]@,
                                            table.keys@[j]@,
                                        );
                                    } else {
                                        lemma_key_transitive(
                                            table.keys@[j]@,
                                            table.keys@[m]@,
                                            table.keys@[i as int]@,
                                        );
                                    }
                                }
                            }
                        }
                    }
                }
                if better {
                    best = Some(i);
                }
            }
            i = i + 1;
        }
        match best {
            None => {
                done = true;
            },
            Some(m) => {
                let ghost before = out@;
                let ghost last = crate::utils::opt_view(prev);
                let key = table.keys[m].clone();
                let info = table.vals[m];
                out.push((key, info));
                prev = Some(table.keys[m].clone());
                proof {
                    let km = table.keys@[m as int]@;
                    assert forall|a: int, b: int| 0 <= a < b < out@.len() implies beyond(
                        asc,
                        Some((#[trigger] out@[a]).0@),
                        (#[trigger] out@[b]).0@,
                    ) by {
                        if b == before.len() {
                            if a < before.len() - 1 {
                                if asc {
                                    lemma_key_transitive(before[a].0@, before.last().0@, km);
                                } else {
                                    lemma_key_transitive(km, before.last().0@, before[a].0@);
                                }
                            }
                        }
                    }
                    assert forall|key: Seq<char>|
                        #![trigger table.has(key)]
                        table.has(key) && beyond(asc, cursor, key) implies listed(out@, key)
                        || beyond(asc, Some(km), key) by {
                        if listed(before, key) {
                            let k = choose|k: int| 0 <= k < before.len() && (#[trigger] before[k]).0@ == key;
                            assert(out@[k].0@ == key);
                        } else {
                            let j = table.index_of(key);
                            if j == m {
                                assert(out@[before.len() as int].0@ == key);
                            }
                        }
                    }
                }
            },
        }
    }
    out
}

} // verus!
