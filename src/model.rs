//! The batching policy as mathematics: what each event does to the pending
//! bytes, which batches a sequence of events produces, and the laws that hold
//! of them.
use vstd::prelude::*;
use vstd::arithmetic::div_mod::lemma_fundamental_div_mod_converse;

verus! {

/// The concatenation of a sequence of byte strings, in order.
pub open spec fn concat(parts: Seq<Seq<u8>>) -> Seq<u8>
    decreases parts.len(),
{
    if parts.len() == 0 {
        Seq::<u8>::empty()
    } else {
        concat(parts.drop_last()) + parts.last()
    }
}

/// The batch that flushing `pending` sends: none when nothing is pending.
pub open spec fn flush_of(pending: Seq<u8>) -> Seq<Seq<u8>> {
    if pending.len() == 0 {
        Seq::<Seq<u8>>::empty()
    } else {
        seq![pending]
    }
}

/// One event arriving while `pending` waits, under capacity `cap`: the
/// batches sent, in order, and the bytes pending afterwards. An event that
/// fits is appended; one that does not flushes the pending bytes and starts
/// the next batch; one larger than the capacity on its own is sent alone.
pub open spec fn event_step(pending: Seq<u8>, event: Seq<u8>, cap: nat) -> (Seq<Seq<u8>>, Seq<u8>) {
    if pending.len() + event.len() <= cap {
        (Seq::<Seq<u8>>::empty(), pending + event)
    } else if event.len() <= cap {
        (flush_of(pending), event)
    } else {
        (flush_of(pending).push(event), Seq::<u8>::empty())
    }
}

/// The batches sent while `events` arrive one after another at a fresh
/// worker, and the bytes pending after the last of them.
pub open spec fn run_events(events: Seq<Seq<u8>>, cap: nat) -> (Seq<Seq<u8>>, Seq<u8>)
    decreases events.len(),
{
    if events.len() == 0 {
        (Seq::<Seq<u8>>::empty(), Seq::<u8>::empty())
    } else {
        let before = run_events(events.drop_last(), cap);
        let step = event_step(before.1, events.last(), cap);
        (before.0 + step.0, step.1)
    }
}

/// Every batch sent for `events`, the final drain on shutdown included.
pub open spec fn batches_until_shutdown(events: Seq<Seq<u8>>, cap: nat) -> Seq<Seq<u8>> {
    let r = run_events(events, cap);
    r.0 + flush_of(r.1)
}

/// Concatenation distributes over appending sequences of parts.
pub proof fn lemma_concat_append(a: Seq<Seq<u8>>, b: Seq<Seq<u8>>)
    ensures
        concat(a + b) == concat(a) + concat(b),
    decreases b.len(),
{
    if b.len() == 0 {
        assert(a + b =~= a);
        assert(concat(a) + concat(b) =~= concat(a));
    } else {
        lemma_concat_append(a, b.drop_last());
        assert((a + b).drop_last() =~= a + b.drop_last());
        assert(concat(a) + concat(b) =~= concat(a) + concat(b.drop_last()) + b.last());
    }
}

proof fn lemma_concat_one(s: Seq<u8>)
    ensures
        concat(seq![s]) == s,
{
    assert(seq![s].drop_last() =~= Seq::<Seq<u8>>::empty());
    assert(seq![s].last() == s);
    assert(concat(Seq::<Seq<u8>>::empty()) == Seq::<u8>::empty());
    assert(Seq::<u8>::empty() + s =~= s);
}

/// The pending bytes never exceed the capacity.
pub proof fn lemma_pending_within_capacity(events: Seq<Seq<u8>>, cap: nat)
    ensures
        run_events(events, cap).1.len() <= cap,
    decreases events.len(),
{
    if events.len() > 0 {
        lemma_pending_within_capacity(events.drop_last(), cap);
    }
}

/// Nothing is lost or reordered: the batches sent so far followed by the
/// pending bytes are exactly the events' bytes in the order they arrived.
pub proof fn lemma_order_kept(events: Seq<Seq<u8>>, cap: nat)
    ensures
        concat(run_events(events, cap).0) + run_events(events, cap).1 == concat(events),
    decreases events.len(),
{
    if events.len() > 0 {
        let before = run_events(events.drop_last(), cap);
        let e = events.last();
        let step = event_step(before.1, e, cap);
        lemma_order_kept(events.drop_last(), cap);
        lemma_concat_append(before.0, step.0);
        lemma_flush_concat(before.1);
        if before.1.len() + e.len() <= cap {
            assert(concat(step.0) =~= Seq::<u8>::empty());
            assert(concat(step.0) + step.1 =~= before.1 + e);
        } else if e.len() <= cap {
            assert(concat(step.0) + step.1 =~= before.1 + e);
        } else {
            assert(step.0.drop_last() =~= flush_of(before.1));
            assert(concat(step.0) == concat(flush_of(before.1)) + e);
            assert(concat(step.0) + step.1 =~= before.1 + e);
        }
        assert(concat(events) == concat(events.drop_last()) + e);
        assert(concat(run_events(events, cap).0) + run_events(events, cap).1 =~= concat(
            events,
        ));
    }
}

proof fn lemma_flush_concat(pending: Seq<u8>)
    ensures
        concat(flush_of(pending)) == pending,
{
    if pending.len() == 0 {
        assert(concat(flush_of(pending)) =~= pending);
    } else {
        lemma_concat_one(pending);
    }
}

/// On a clean shutdown every event's bytes are sent, in the order they
/// arrived, and no batch sent is empty.
pub proof fn lemma_shutdown_sends_everything(events: Seq<Seq<u8>>, cap: nat)
    ensures
        concat(batches_until_shutdown(events, cap)) == concat(events),
        forall|i: int|
            0 <= i < batches_until_shutdown(events, cap).len() ==> #[trigger] batches_until_shutdown(
                events,
                cap,
            )[i].len() > 0,
{
    let r = run_events(events, cap);
    lemma_order_kept(events, cap);
    lemma_concat_append(r.0, flush_of(r.1));
    lemma_flush_concat(r.1);
    lemma_sent_batches_nonempty(events, cap);
}

proof fn lemma_sent_batches_nonempty(events: Seq<Seq<u8>>, cap: nat)
    ensures
        forall|i: int|
            0 <= i < batches_until_shutdown(events, cap).len() ==> #[trigger] batches_until_shutdown(
                events,
                cap,
            )[i].len() > 0,
    decreases events.len(),
{
    lemma_sent_nonempty(events, cap);
    let r = run_events(events, cap);
    assert forall|i: int| 0 <= i < batches_until_shutdown(events, cap).len() implies #[trigger] batches_until_shutdown(events, cap)[i].len() > 0 by {
        if i < r.0.len() {
            assert(batches_until_shutdown(events, cap)[i] == r.0[i]);
        }
    }
}

proof fn lemma_sent_nonempty(events: Seq<Seq<u8>>, cap: nat)
    ensures
        forall|i: int| 0 <= i < run_events(events, cap).0.len() ==> #[trigger] run_events(events, cap).0[i].len() > 0,
    decreases events.len(),
{
    if events.len() > 0 {
        lemma_sent_nonempty(events.drop_last(), cap);
        let before = run_events(events.drop_last(), cap);
        let step = event_step(before.1, events.last(), cap);
        assert forall|i: int| 0 <= i < run_events(events, cap).0.len() implies #[trigger] run_events(events, cap).0[i].len() > 0 by {
            if i >= before.0.len() {
                assert(run_events(events, cap).0[i] == step.0[i - before.0.len()]);
            }
        }
    }
}

proof fn lemma_fits_nothing_sent(events: Seq<Seq<u8>>, cap: nat)
    requires
        concat(events).len() <= cap,
    ensures
        run_events(events, cap).0 == Seq::<Seq<u8>>::empty(),
        run_events(events, cap).1 == concat(events),
    decreases events.len(),
{
    if events.len() > 0 {
        assert(concat(events) == concat(events.drop_last()) + events.last());
        lemma_fits_nothing_sent(events.drop_last(), cap);
        assert(run_events(events, cap).0 =~= Seq::<Seq<u8>>::empty());
    }
}

/// Events whose bytes together fit in the capacity cause no flush before
/// shutdown, and shutdown sends exactly one batch: all their bytes, in the
/// order they arrived.
pub proof fn lemma_fits_one_flush(events: Seq<Seq<u8>>, cap: nat)
    requires
        concat(events).len() <= cap,
        concat(events).len() > 0,
    ensures
        batches_until_shutdown(events, cap) == seq![concat(events)],
{
    lemma_fits_nothing_sent(events, cap);
    assert(batches_until_shutdown(events, cap) =~= seq![concat(events)]);
}

/// With a capacity the events never reach, no size-based flush happens, so
/// when the worker then waits past its idle timeout the flush it makes (the
/// flush of the pending bytes) holds exactly the events that came before the
/// gap, in order.
pub proof fn lemma_idle_flush_sends_events_before_gap(events: Seq<Seq<u8>>, cap: nat)
    requires
        concat(events).len() <= cap,
    ensures
        run_events(events, cap).0 == Seq::<Seq<u8>>::empty(),
        flush_of(run_events(events, cap).1) == flush_of(concat(events)),
{
    lemma_fits_nothing_sent(events, cap);
}

proof fn lemma_sent_within_capacity(events: Seq<Seq<u8>>, cap: nat)
    requires
        forall|i: int| 0 <= i < events.len() ==> #[trigger] events[i].len() <= cap,
    ensures
        forall|i: int| 0 <= i < run_events(events, cap).0.len() ==> #[trigger] run_events(events, cap).0[i].len() <= cap,
        run_events(events, cap).1.len() <= cap,
    decreases events.len(),
{
    if events.len() > 0 {
        let dl = events.drop_last();
        assert forall|i: int| 0 <= i < dl.len() implies #[trigger] dl[i].len() <= cap by {
            assert(dl[i] == events[i]);
        }
        lemma_sent_within_capacity(dl, cap);
        let before = run_events(dl, cap);
        let e = events.last();
        assert(e == events[events.len() - 1]);
        let step = event_step(before.1, e, cap);
        assert forall|i: int| 0 <= i < run_events(events, cap).0.len() implies #[trigger] run_events(events, cap).0[i].len() <= cap by {
            if i >= before.0.len() {
                assert(run_events(events, cap).0[i] == step.0[i - before.0.len()]);
            }
        }
    }
}

/// When no event is larger than the capacity, no batch sent is larger than
/// the capacity either.
pub proof fn lemma_batches_within_capacity(events: Seq<Seq<u8>>, cap: nat)
    requires
        forall|i: int| 0 <= i < events.len() ==> #[trigger] events[i].len() <= cap,
    ensures
        forall|i: int|
            0 <= i < batches_until_shutdown(events, cap).len() ==> #[trigger] batches_until_shutdown(
                events,
                cap,
            )[i].len() <= cap,
{
    lemma_sent_within_capacity(events, cap);
    let r = run_events(events, cap);
    assert forall|i: int| 0 <= i < batches_until_shutdown(events, cap).len() implies #[trigger] batches_until_shutdown(events, cap)[i].len() <= cap by {
        if i < r.0.len() {
            assert(batches_until_shutdown(events, cap)[i] == r.0[i]);
        }
    }
}

proof fn lemma_uniform_total(events: Seq<Seq<u8>>, d: nat)
    requires
        forall|i: int| 0 <= i < events.len() ==> #[trigger] events[i].len() == d,
    ensures
        concat(events).len() == events.len() * d,
    decreases events.len(),
{
    if events.len() > 0 {
        let dl = events.drop_last();
        assert forall|i: int| 0 <= i < dl.len() implies #[trigger] dl[i].len() == d by {
            assert(dl[i] == events[i]);
        }
        lemma_uniform_total(dl, d);
        assert(events.last() == events[events.len() - 1]);
        assert(concat(events).len() == dl.len() * d + d);
        assert(dl.len() * d + d == events.len() * d) by (nonlinear_arith)
            requires
                dl.len() + 1 == events.len(),
        ;
    }
}

proof fn lemma_uniform_state(events: Seq<Seq<u8>>, cap: nat, d: nat)
    requires
        0 < d <= cap,
        cap % d == 0,
        events.len() > 0,
        forall|i: int| 0 <= i < events.len() ==> #[trigger] events[i].len() == d,
    ensures
        run_events(events, cap).0.len() == (events.len() - 1) / (cap / d) as int,
        run_events(events, cap).1.len() == ((events.len() - 1) % (cap / d) as int + 1) * d,
    decreases events.len(),
{
    let k: int = (cap / d) as int;
    let n: int = events.len() as int;
    assert(cap == k * d) by {
        vstd::arithmetic::div_mod::lemma_fundamental_div_mod(cap as int, d as int);
    }
    assert(k >= 1) by (nonlinear_arith)
        requires
            cap == k * d,
            0 < d <= cap,
    ;
    let e = events.last();
    assert(e == events[n - 1]);
    if n == 1 {
        assert(events.drop_last() =~= Seq::<Seq<u8>>::empty());
        let before = run_events(events.drop_last(), cap);
        assert(before.1 == Seq::<u8>::empty());
        assert(before.0 == Seq::<Seq<u8>>::empty());
        assert(before.1.len() + e.len() <= cap);
        lemma_fundamental_div_mod_converse(0, k, 0, 0);
        assert(run_events(events, cap).1.len() == d);
        assert(run_events(events, cap).0.len() == 0);
    } else {
        let dl = events.drop_last();
        assert forall|i: int| 0 <= i < dl.len() implies #[trigger] dl[i].len() == d by {
            assert(dl[i] == events[i]);
        }
        lemma_uniform_state(dl, cap, d);
        let before = run_events(dl, cap);
        let q = (n - 2) / k;
        let r = (n - 2) % k;
        vstd::arithmetic::div_mod::lemma_fundamental_div_mod(n - 2, k);
        assert(0 <= r < k) by {
            vstd::arithmetic::div_mod::lemma_mod_bound(n - 2, k);
        }
        assert(before.1.len() == (r + 1) * d);
        if r + 1 < k {
            assert(before.1.len() + e.len() <= cap) by (nonlinear_arith)
                requires
                    before.1.len() == (r + 1) * d,
                    e.len() == d,
                    r + 1 < k,
                    cap == k * d,
            ;
            assert(n - 1 == q * k + (r + 1)) by (nonlinear_arith)
                requires
                    n - 2 == k * q + r,
            ;
            lemma_fundamental_div_mod_converse(n - 1, k, q, r + 1);
            assert(run_events(events, cap).1.len() == (r + 2) * d) by (nonlinear_arith)
                requires
                    run_events(events, cap).1.len() == before.1.len() + d,
                    before.1.len() == (r + 1) * d,
            ;
        } else {
            assert(before.1.len() + e.len() > cap) by (nonlinear_arith)
                requires
                    before.1.len() == (r + 1) * d,
                    e.len() == d,
                    r + 1 == k,
                    cap == k * d,
                    d > 0,
            ;
            assert(before.1.len() > 0) by (nonlinear_arith)
                requires
                    before.1.len() == (r + 1) * d,
                    r >= 0,
                    d > 0,
            ;
            assert(n - 1 == (q + 1) * k + 0) by (nonlinear_arith)
                requires
                    n - 2 == k * q + r,
                    r + 1 == k,
            ;
            lemma_fundamental_div_mod_converse(n - 1, k, q + 1, 0);
            assert(flush_of(before.1).len() == 1);
            assert(run_events(events, cap).0.len() == q + 1);
            assert(run_events(events, cap).1.len() == d);
            assert((0 + 1) * d == d);
        }
    }
}

/// With events all of one length `d` that divides the capacity, the number of
/// batches sent up to and including shutdown is the total byte count divided
/// by the capacity, rounded up.
pub proof fn lemma_uniform_flush_count(events: Seq<Seq<u8>>, cap: nat, d: nat)
    requires
        0 < d <= cap,
        cap % d == 0,
        forall|i: int| 0 <= i < events.len() ==> #[trigger] events[i].len() == d,
    ensures
        batches_until_shutdown(events, cap).len() == (concat(events).len() + cap - 1) as int / cap as int,
{
    lemma_uniform_total(events, d);
    let n: int = events.len() as int;
    if n == 0 {
        lemma_fundamental_div_mod_converse(cap - 1, cap as int, 0, cap - 1);
    } else {
        lemma_uniform_state(events, cap, d);
        let k: int = (cap / d) as int;
        assert(cap == k * d) by {
            vstd::arithmetic::div_mod::lemma_fundamental_div_mod(cap as int, d as int);
        }
        let q = (n - 1) / k;
        let r = (n - 1) % k;
        assert(k > 0) by (nonlinear_arith)
            requires
                cap == k * d,
                0 < d <= cap,
        ;
        vstd::arithmetic::div_mod::lemma_fundamental_div_mod(n - 1, k);
        vstd::arithmetic::div_mod::lemma_mod_bound(n - 1, k);
        let run = run_events(events, cap);
        assert(run.1.len() > 0) by (nonlinear_arith)
            requires
                run.1.len() == (r + 1) * d,
                r >= 0,
                d > 0,
        ;
        assert(batches_until_shutdown(events, cap).len() == q + 1);
        let rem = (r + 1) * d - 1;
        assert(0 <= rem < cap && n * d + cap - 1 == (q + 1) * cap + rem) by (nonlinear_arith)
            requires
                rem == (r + 1) * d - 1,
                0 <= r < k,
                d > 0,
                cap == k * d,
                n - 1 == k * q + r,
        ;
        lemma_fundamental_div_mod_converse(n * d + cap - 1, cap as int, q + 1, rem);
    }
}

} // verus!
